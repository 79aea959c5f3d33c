//! Canonical compact JSON framing for the payloads that cross the oracle hub.
//!
//! Every payload in this system is a flat JSON object whose members are
//! strings (plus one boolean). The encoder emits the compact form with the
//! members in declaration order, which is exactly what the peers produce and
//! expect; the parser accepts exactly that canonical form.

use vstd::prelude::*;
use vstd::string::StrSliceExecFns;
use vstd::string::StringExecFns;

verus! {

/// Text that can stand inside a JSON string without escaping: it holds
/// neither a double quote nor a backslash.
pub open spec fn wf_text(s: Seq<char>) -> bool {
    forall|i: int| 0 <= i < s.len() ==> s[i] != '"' && s[i] != '\\'
}

/// A JSON string literal around already-clean text.
pub open spec fn quoted(s: Seq<char>) -> Seq<char> {
    seq!['"'] + s + seq!['"']
}

/// One `"name":"value"` object member.
pub open spec fn member(name: Seq<char>, value: Seq<char>) -> Seq<char> {
    quoted(name) + seq![':'] + quoted(value)
}

/// A compact two-member JSON object: `{"n1":"v1","n2":"v2"}`.
pub open spec fn two_member_object(
    n1: Seq<char>,
    v1: Seq<char>,
    n2: Seq<char>,
    v2: Seq<char>,
) -> Seq<char> {
    seq!['{'] + member(n1, v1) + seq![','] + member(n2, v2) + seq!['}']
}

/// The JSON spelling of a boolean.
pub open spec fn bool_lit(b: bool) -> Seq<char> {
    if b {
        seq!['t', 'r', 'u', 'e']
    } else {
        seq!['f', 'a', 'l', 's', 'e']
    }
}

/// Turns a string slice into its character sequence.
fn str_to_chars(s: &str) -> (r: Vec<char>)
    ensures
        r@ == s@,
{
    let n = s.unicode_len();
    let mut r: Vec<char> = Vec::new();
    let mut i: usize = 0;
    while i < n
        invariant
            n == s@.len(),
            i <= n,
            r@ == s@.subrange(0, i as int),
        decreases n - i,
    {
        r.push(s.get_char(i));
        i = i + 1;
        proof {
            assert(r@ =~= s@.subrange(0, i as int));
        }
    }
    proof {
        assert(r@ =~= s@);
    }
    r
}

/// Turns a character sequence back into an owned string.
///
/// Relies on `String`'s `FromIterator<char>` impl from std: collecting
/// characters yields the string made of exactly those characters in order.
#[verifier::external_body]
fn chars_to_string(v: &Vec<char>) -> (r: String)
    ensures
        r@ == v@,
{
    v.iter().collect()
}

/// True when the characters of `lit` stand in `s` starting at `i`.
fn lit_at(s: &Vec<char>, i: usize, lit: &str) -> (r: bool)
    requires
        i <= s@.len(),
    ensures
        r == (i + lit@.len() <= s@.len() && s@.subrange(i as int, i as int + lit@.len() as int)
            == lit@),
{
    let n = lit.unicode_len();
    let sl = s.len();
    if n > sl - i {
        return false;
    }
    let mut j: usize = 0;
    while j < n
        invariant
            n == lit@.len(),
            sl == s@.len(),
            i + n <= sl,
            j <= n,
            s@.subrange(i as int, i as int + j as int) == lit@.subrange(0, j as int),
        decreases n - j,
    {
        if s[i + j] != lit.get_char(j) {
            proof {
                assert(s@[i + j as int] != lit@[j as int]);
                assert(s@.subrange(i as int, i as int + n as int)[j as int] == s@[i + j as int]);
                assert(s@.subrange(i as int, i as int + n as int) != lit@);
            }
            return false;
        }
        j = j + 1;
        proof {
            assert(s@.subrange(i as int, i as int + j as int) =~= lit@.subrange(0, j as int));
        }
    }
    proof {
        assert(s@.subrange(i as int, i as int + n as int) =~= lit@);
    }
    true
}

/// What scanning for the closing quote of a JSON string yields: the clean
/// text before the first `"` after `i`, and the position just past that
/// quote; `None` when a backslash or the end of input comes first.
spec fn scan_spec(s: Seq<char>, i: int) -> Option<(Seq<char>, int)>
    decreases s.len() - i,
{
    if i < 0 || i >= s.len() {
        None
    } else if s[i] == '"' {
        Some((Seq::empty(), i + 1))
    } else if s[i] == '\\' {
        None
    } else {
        match scan_spec(s, i + 1) {
            None => None,
            Some((t, j)) => Some((seq![s[i]] + t, j)),
        }
    }
}

/// What a successful scan says of the input.
proof fn lemma_scan_sound(s: Seq<char>, i: int)
    requires
        scan_spec(s, i) is Some,
    ensures
        ({
            let (t, j) = scan_spec(s, i)->Some_0;
            &&& 0 <= i
            &&& j == i + t.len() + 1
            &&& j <= s.len()
            &&& s.subrange(i, j - 1) == t
            &&& s[j - 1] == '"'
            &&& wf_text(t)
        }),
    decreases s.len() - i,
{
    let (t, j) = scan_spec(s, i)->Some_0;
    if s[i] == '"' {
        assert(s.subrange(i, i) =~= t);
    } else {
        lemma_scan_sound(s, i + 1);
        let (t2, j2) = scan_spec(s, i + 1)->Some_0;
        assert(t == seq![s[i]] + t2);
        assert(s.subrange(i, j - 1) =~= seq![s[i]] + s.subrange(i + 1, j - 1));
        assert(forall|k: int| 0 <= k < t.len() ==> t[k] != '"' && t[k] != '\\') by {
            assert(t[0] == s[i]);
            assert(forall|k: int| 1 <= k < t.len() ==> t[k] == t2[k - 1]);
        }
    }
}

/// Scanning clean text followed by a quote finds exactly that text.
proof fn lemma_scan_of_clean(s: Seq<char>, i: int, t: Seq<char>)
    requires
        0 <= i,
        i + t.len() + 1 <= s.len(),
        wf_text(t),
        s.subrange(i, i + t.len()) == t,
        s[i + t.len()] == '"',
    ensures
        scan_spec(s, i) == Some((t, i + t.len() + 1)),
    decreases t.len(),
{
    if t.len() == 0 {
        assert(s[i] == '"');
    } else {
        assert(s[i] == t[0]) by {
            assert(s.subrange(i, i + t.len())[0] == s[i]);
        }
        assert(s[i] != '"' && s[i] != '\\');
        let t2 = t.subrange(1, t.len() as int);
        assert(s.subrange(i + 1, i + 1 + t2.len() as int) =~= t2) by {
            assert forall|k: int| 0 <= k < t2.len() implies s.subrange(
                i + 1,
                i + 1 + t2.len() as int,
            )[k] == t2[k] by {
                assert(s.subrange(i, i + t.len() as int)[k + 1] == s[i + 1 + k]);
            }
        }
        assert(wf_text(t2));
        lemma_scan_of_clean(s, i + 1, t2);
        assert(seq![s[i]] + t2 =~= t);
    }
}

/// Scans for the closing quote of a JSON string starting at `start`.
fn scan_string(s: &Vec<char>, start: usize) -> (r: Option<(Vec<char>, usize)>)
    requires
        start <= s@.len(),
    ensures
        match r {
            Some(p) => scan_spec(s@, start as int) == Some((p.0@, p.1 as int)),
            None => scan_spec(s@, start as int) is None,
        },
{
    let ghost whole = scan_spec(s@, start as int);
    let mut out: Vec<char> = Vec::new();
    let mut i = start;
    while i < s.len()
        invariant
            start <= i <= s@.len(),
            whole == scan_spec(s@, start as int),
            whole == match scan_spec(s@, i as int) {
                None => None::<(Seq<char>, int)>,
                Some(p) => Some((out@ + p.0, p.1)),
            },
        decreases s@.len() - i,
    {
        let c = s[i];
        if c == '"' {
            proof {
                assert(out@ + Seq::<char>::empty() =~= out@);
            }
            return Some((out, i + 1));
        }
        if c == '\\' {
            return None;
        }
        proof {
            let next = scan_spec(s@, i + 1);
            match next {
                None => {}
                Some(p) => {
                    assert(out@ + (seq![s@[i as int]] + p.0) =~= out@.push(s@[i as int]) + p.0);
                }
            }
        }
        out.push(c);
        i = i + 1;
    }
    None
}

/// Builds the compact two-member object `{"n1":"v1","n2":"v2"}`.
pub fn encode_two_member(n1: &str, v1: &str, n2: &str, v2: &str) -> (r: String)
    ensures
        r@ == two_member_object(n1@, v1@, n2@, v2@),
{
    let mut r = String::from_str("{\"");
    r.append(n1);
    r.append("\":\"");
    r.append(v1);
    r.append("\",\"");
    r.append(n2);
    r.append("\":\"");
    r.append(v2);
    r.append("\"}");
    proof {
        reveal_strlit("{\"");
        reveal_strlit("\":\"");
        reveal_strlit("\",\"");
        reveal_strlit("\"}");
        assert(r@ =~= two_member_object(n1@, v1@, n2@, v2@));
    }
    r
}

/// The compact verdict object: three string members and a boolean member,
/// in declaration order.
pub open spec fn verification_object(
    id: Seq<char>,
    user: Seq<char>,
    acct: Seq<char>,
    ok: bool,
) -> Seq<char> {
    seq!['{'] + member("twitter_id"@, id) + seq![','] + member("twitter_username"@, user)
        + seq![','] + member("near_account_id"@, acct) + seq![','] + quoted("verified"@)
        + seq![':'] + bool_lit(ok) + seq!['}']
}

/// Builds the compact verdict object.
pub fn encode_verification_object(id: &str, user: &str, acct: &str, ok: bool) -> (r: String)
    ensures
        r@ == verification_object(id@, user@, acct@, ok),
{
    let mut r = String::from_str("{\"twitter_id\":\"");
    r.append(id);
    r.append("\",\"twitter_username\":\"");
    r.append(user);
    r.append("\",\"near_account_id\":\"");
    r.append(acct);
    r.append("\",\"verified\":");
    if ok {
        r.append("true");
    } else {
        r.append("false");
    }
    r.append("}");
    proof {
        reveal_strlit("{\"twitter_id\":\"");
        reveal_strlit("\",\"twitter_username\":\"");
        reveal_strlit("\",\"near_account_id\":\"");
        reveal_strlit("\",\"verified\":");
        reveal_strlit("true");
        reveal_strlit("false");
        reveal_strlit("}");
        reveal_strlit("twitter_id");
        reveal_strlit("twitter_username");
        reveal_strlit("near_account_id");
        reveal_strlit("verified");
        assert(r@ =~= verification_object(id@, user@, acct@, ok));
    }
    r
}

/// How the canonical two-member object decomposes around its two values.
proof fn lemma_object_parts(
    s: Seq<char>,
    n1: Seq<char>,
    a: Seq<char>,
    n2: Seq<char>,
    b: Seq<char>,
    pre1: Seq<char>,
    pre2: Seq<char>,
)
    requires
        pre1 == seq!['{', '"'] + n1 + seq!['"', ':', '"'],
        pre2 == seq![',', '"'] + n2 + seq!['"', ':', '"'],
        s == two_member_object(n1, a, n2, b),
    ensures
        s.len() == pre1.len() + a.len() + 1 + pre2.len() + b.len() + 2,
        s.subrange(0, pre1.len() as int) == pre1,
        s.subrange(pre1.len() as int, pre1.len() as int + a.len() as int) == a,
        s[pre1.len() as int + a.len() as int] == '"',
        s.subrange(
            pre1.len() as int + a.len() as int + 1,
            pre1.len() as int + a.len() as int + 1 + pre2.len() as int,
        ) == pre2,
        s.subrange(
            pre1.len() as int + a.len() as int + 1 + pre2.len() as int,
            pre1.len() as int + a.len() as int + 1 + pre2.len() as int + b.len() as int,
        ) == b,
        s[pre1.len() as int + a.len() as int + 1 + pre2.len() as int + b.len() as int] == '"',
        s[pre1.len() as int + a.len() as int + 1 + pre2.len() as int + b.len() as int + 1] == '}',
{
    let j = pre1.len() as int + a.len() as int + 1;
    let l2 = pre2.len() as int;
    let bl = b.len() as int;
    assert(s =~= pre1 + a + seq!['"'] + pre2 + b + seq!['"', '}']);
    assert(s.subrange(0, pre1.len() as int) =~= pre1);
    assert(s.subrange(pre1.len() as int, pre1.len() as int + a.len() as int) =~= a);
    assert(s.subrange(j, j + l2) =~= pre2);
    assert(s.subrange(j + l2, j + l2 + bl) =~= b);
}

/// Gathering the parsed pieces back into the canonical object.
proof fn lemma_object_join(
    s: Seq<char>,
    n1: Seq<char>,
    a: Seq<char>,
    n2: Seq<char>,
    b: Seq<char>,
    pre1: Seq<char>,
    pre2: Seq<char>,
    j: int,
    k: int,
)
    requires
        pre1 == seq!['{', '"'] + n1 + seq!['"', ':', '"'],
        pre2 == seq![',', '"'] + n2 + seq!['"', ':', '"'],
        j == pre1.len() + a.len() + 1,
        k == j + pre2.len() + b.len() + 1,
        s.len() == k + 1,
        s.subrange(0, pre1.len() as int) == pre1,
        s.subrange(pre1.len() as int, j - 1) == a,
        s[j - 1] == '"',
        s.subrange(j, j + pre2.len() as int) == pre2,
        s.subrange(j + pre2.len() as int, k - 1) == b,
        s[k - 1] == '"',
        s[k] == '}',
    ensures
        s == two_member_object(n1, a, n2, b),
{
    let p1 = pre1.len() as int;
    let p2 = pre2.len() as int;
    let r = pre1 + a + seq!['"'] + pre2 + b + seq!['"', '}'];
    assert forall|idx: int| 0 <= idx < s.len() implies s[idx] == r[idx] by {
        if idx < p1 {
            assert(s.subrange(0, p1)[idx] == s[idx]);
        } else if idx < j - 1 {
            assert(s.subrange(p1, j - 1)[idx - p1] == s[idx]);
        } else if idx == j - 1 {
        } else if idx < j + p2 {
            assert(s.subrange(j, j + p2)[idx - j] == s[idx]);
        } else if idx < k - 1 {
            assert(s.subrange(j + p2, k - 1)[idx - j - p2] == s[idx]);
        }
    }
    assert(s =~= r);
    assert(two_member_object(n1, a, n2, b) =~= r);
}

/// One canonical object spells one pair of values: on clean text the
/// encoding is injective, so whatever a parse returns is the only pair the
/// input could have encoded.
pub proof fn lemma_object_injective(
    n1: Seq<char>,
    n2: Seq<char>,
    a: Seq<char>,
    b: Seq<char>,
    a2: Seq<char>,
    b2: Seq<char>,
)
    requires
        wf_text(a),
        wf_text(b),
        wf_text(a2),
        wf_text(b2),
        two_member_object(n1, a, n2, b) == two_member_object(n1, a2, n2, b2),
    ensures
        a == a2,
        b == b2,
{
    let s = two_member_object(n1, a, n2, b);
    let pre1 = seq!['{', '"'] + n1 + seq!['"', ':', '"'];
    let pre2 = seq![',', '"'] + n2 + seq!['"', ':', '"'];
    lemma_object_parts(s, n1, a, n2, b, pre1, pre2);
    lemma_object_parts(s, n1, a2, n2, b2, pre1, pre2);
    let p1 = pre1.len() as int;
    lemma_scan_of_clean(s, p1, a);
    lemma_scan_of_clean(s, p1, a2);
    assert(a == a2);
    let j = p1 + a.len() + 1;
    lemma_scan_of_clean(s, j + pre2.len(), b);
    lemma_scan_of_clean(s, j + pre2.len(), b2);
    assert(b == b2);
}

/// Parses the canonical two-member object with the given member names,
/// yielding the two values exactly when the input is such an object.
#[verifier::rlimit(80)]
pub fn parse_two_member(s: &str, n1: &str, n2: &str) -> (r: Option<(String, String)>)
    ensures
        match r {
            Some(p) => wf_text(p.0@) && wf_text(p.1@) && s@ == two_member_object(
                n1@,
                p.0@,
                n2@,
                p.1@,
            ),
            None => forall|a: Seq<char>, b: Seq<char>|
                !(wf_text(a) && wf_text(b) && s@ == two_member_object(n1@, a, n2@, b)),
        },
{
    let chars = str_to_chars(s);
    let total = chars.len();
    let mut pre1 = String::from_str("{\"");
    pre1.append(n1);
    pre1.append("\":\"");
    let mut pre2 = String::from_str(",\"");
    pre2.append(n2);
    pre2.append("\":\"");
    proof {
        reveal_strlit("{\"");
        reveal_strlit("\":\"");
        reveal_strlit(",\"");
        reveal_strlit("}");
        assert(pre1@ =~= seq!['{', '"'] + n1@ + seq!['"', ':', '"']);
        assert(pre2@ =~= seq![',', '"'] + n2@ + seq!['"', ':', '"']);
    }
    let l1 = pre1.as_str().unicode_len();
    let l2 = pre2.as_str().unicode_len();

    if !lit_at(&chars, 0, pre1.as_str()) {
        proof {
            assert forall|a: Seq<char>, b: Seq<char>|
                !(wf_text(a) && wf_text(b) && s@ == two_member_object(n1@, a, n2@, b)) by {
                if wf_text(a) && wf_text(b) && s@ == two_member_object(n1@, a, n2@, b) {
                    lemma_object_parts(s@, n1@, a, n2@, b, pre1@, pre2@);
                    assert(false);
                }
            }
        }
        return None;
    }
    let sc1 = scan_string(&chars, l1);
    if sc1.is_none() {
        proof {
            assert forall|a: Seq<char>, b: Seq<char>|
                !(wf_text(a) && wf_text(b) && s@ == two_member_object(n1@, a, n2@, b)) by {
                if wf_text(a) && wf_text(b) && s@ == two_member_object(n1@, a, n2@, b) {
                    lemma_object_parts(s@, n1@, a, n2@, b, pre1@, pre2@);
                    lemma_scan_of_clean(s@, l1 as int, a);
                    assert(false);
                }
            }
        }
        return None;
    }
    let (val1, j) = sc1.unwrap();
    proof {
        lemma_scan_sound(s@, l1 as int);
    }
    if !lit_at(&chars, j, pre2.as_str()) {
        proof {
            assert forall|a: Seq<char>, b: Seq<char>|
                !(wf_text(a) && wf_text(b) && s@ == two_member_object(n1@, a, n2@, b)) by {
                if wf_text(a) && wf_text(b) && s@ == two_member_object(n1@, a, n2@, b) {
                    lemma_object_parts(s@, n1@, a, n2@, b, pre1@, pre2@);
                    lemma_scan_of_clean(s@, l1 as int, a);
                    assert(false);
                }
            }
        }
        return None;
    }
    proof {
        assert(j + l2 <= total);
    }
    let after1 = j + l2;
    let sc2 = scan_string(&chars, after1);
    if sc2.is_none() {
        proof {
            assert forall|a: Seq<char>, b: Seq<char>|
                !(wf_text(a) && wf_text(b) && s@ == two_member_object(n1@, a, n2@, b)) by {
                if wf_text(a) && wf_text(b) && s@ == two_member_object(n1@, a, n2@, b) {
                    lemma_object_parts(s@, n1@, a, n2@, b, pre1@, pre2@);
                    lemma_scan_of_clean(s@, l1 as int, a);
                    lemma_scan_of_clean(s@, after1 as int, b);
                    assert(false);
                }
            }
        }
        return None;
    }
    let (val2, k) = sc2.unwrap();
    proof {
        lemma_scan_sound(s@, after1 as int);
    }
    if !(lit_at(&chars, k, "}") && k == total - 1) {
        proof {
            assert forall|a: Seq<char>, b: Seq<char>|
                !(wf_text(a) && wf_text(b) && s@ == two_member_object(n1@, a, n2@, b)) by {
                if wf_text(a) && wf_text(b) && s@ == two_member_object(n1@, a, n2@, b) {
                    lemma_object_parts(s@, n1@, a, n2@, b, pre1@, pre2@);
                    lemma_scan_of_clean(s@, l1 as int, a);
                    assert(j as int == l1 + a.len() + 1);
                    lemma_scan_of_clean(s@, after1 as int, b);
                    assert(k as int == after1 + b.len() + 1);
                    assert(s@[k as int] == '}');
                    assert(s@.subrange(k as int, k as int + 1) =~= "}"@);
                    assert(k as int + 1 == s@.len());
                    assert(k == total - 1);
                    assert(false);
                }
            }
        }
        return None;
    }
    proof {
        assert(s@[k as int] == '}') by {
            assert(s@.subrange(k as int, k as int + 1) == "}"@);
            assert(s@.subrange(k as int, k as int + 1)[0] == s@[k as int]);
        }
        lemma_object_join(s@, n1@, val1@, n2@, val2@, pre1@, pre2@, j as int, k as int);
    }
    Some((chars_to_string(&val1), chars_to_string(&val2)))
}

} // verus!
