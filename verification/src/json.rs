//! Building the JSON body of a POST request.
//!
//! The body pairs become one JSON object. A key that occurs more than once
//! keeps only the value of its last occurrence; the members are emitted in
//! the order of each key's last occurrence. Keys and values are JSON string
//! literals, escaped character by character.

use vstd::prelude::*;
use vstd::string::*;

use crate::kv::KvPair;

verus! {

/// The lower-case hexadecimal digit for `n`.
pub open spec fn digit_char(n: int) -> char {
    if n == 0 { '0' }
    else if n == 1 { '1' }
    else if n == 2 { '2' }
    else if n == 3 { '3' }
    else if n == 4 { '4' }
    else if n == 5 { '5' }
    else if n == 6 { '6' }
    else if n == 7 { '7' }
    else if n == 8 { '8' }
    else if n == 9 { '9' }
    else if n == 10 { 'a' }
    else if n == 11 { 'b' }
    else if n == 12 { 'c' }
    else if n == 13 { 'd' }
    else if n == 14 { 'e' }
    else { 'f' }
}

/// How one character appears inside a JSON string literal: quote and
/// backslash get a backslash escape, the common control characters get
/// their two-character escapes, the remaining control characters a
/// `\u00XX` escape, and every other character stands for itself.
pub open spec fn escape_char(c: char) -> Seq<char> {
    if c == '"' { "\\\""@ }
    else if c == '\\' { "\\\\"@ }
    else if c == '\n' { "\\n"@ }
    else if c == '\r' { "\\r"@ }
    else if c == '\t' { "\\t"@ }
    else if (c as int) < 0x20 {
        "\\u00"@ + seq![digit_char(c as int / 16), digit_char(c as int % 16)]
    } else {
        seq![c]
    }
}

/// The body of a JSON string literal for `s`: each character escaped.
pub open spec fn escape_str(s: Seq<char>) -> Seq<char>
    decreases s.len(),
{
    if s.len() == 0 {
        Seq::empty()
    } else {
        escape_str(s.drop_last()) + escape_char(s.last())
    }
}

/// One member of a JSON object: `"key":"value"`, both escaped.
pub open spec fn json_member(k: Seq<char>, v: Seq<char>) -> Seq<char> {
    "\""@ + escape_str(k) + "\":\""@ + escape_str(v) + "\""@
}

/// The members of a JSON object, separated by commas.
pub open spec fn json_members(ps: Seq<(Seq<char>, Seq<char>)>) -> Seq<char>
    decreases ps.len(),
{
    if ps.len() == 0 {
        Seq::empty()
    } else if ps.len() == 1 {
        json_member(ps[0].0, ps[0].1)
    } else {
        json_members(ps.drop_last()) + ","@ + json_member(ps.last().0, ps.last().1)
    }
}

/// A whole JSON object over the given members.
pub open spec fn json_object(ps: Seq<(Seq<char>, Seq<char>)>) -> Seq<char> {
    "{"@ + json_members(ps) + "}"@
}

/// The pairs as sequences of characters.
pub open spec fn pairs_view(ps: Seq<KvPair>) -> Seq<(Seq<char>, Seq<char>)> {
    Seq::new(ps.len(), |i: int| (ps[i].k@, ps[i].v@))
}

/// Some later pair has the same key as the pair at `i`.
pub open spec fn has_later_duplicate(ps: Seq<(Seq<char>, Seq<char>)>, i: int) -> bool {
    exists|j: int| i < j < ps.len() && ps[j].0 == ps[i].0
}

/// The pairs of the first `n` whose key does not occur again later in the
/// whole sequence: each key kept once, with the value of its last
/// occurrence, in the order of the last occurrences.
pub open spec fn dedup_upto(ps: Seq<(Seq<char>, Seq<char>)>, n: int) -> Seq<(Seq<char>, Seq<char>)>
    decreases n,
{
    if n <= 0 {
        Seq::empty()
    } else if has_later_duplicate(ps, n - 1) {
        dedup_upto(ps, n - 1)
    } else {
        dedup_upto(ps, n - 1).push(ps[n - 1])
    }
}

/// The pairs with duplicate keys resolved: last value wins.
pub open spec fn dedup(ps: Seq<(Seq<char>, Seq<char>)>) -> Seq<(Seq<char>, Seq<char>)> {
    dedup_upto(ps, ps.len() as int)
}

proof fn lemma_dedup_upto_props(ps: Seq<(Seq<char>, Seq<char>)>, n: int)
    requires
        0 <= n <= ps.len(),
    ensures
        forall|t: int| #![trigger dedup_upto(ps, n)[t]]
            0 <= t < dedup_upto(ps, n).len() ==> exists|i: int|
                0 <= i < n && !has_later_duplicate(ps, i) && dedup_upto(ps, n)[t] == ps[i],
        forall|i: int| #![trigger has_later_duplicate(ps, i)]
            0 <= i < n && !has_later_duplicate(ps, i)
                ==> dedup_upto(ps, n).contains(ps[i]),
    decreases n,
{
    if n > 0 {
        lemma_dedup_upto_props(ps, n - 1);
        let d = dedup_upto(ps, n - 1);
        if !has_later_duplicate(ps, n - 1) {
            let d2 = dedup_upto(ps, n);
            assert(d2 == d.push(ps[n - 1]));
            assert forall|i: int| #![trigger has_later_duplicate(ps, i)]
                0 <= i < n - 1 && !has_later_duplicate(ps, i)
                    implies d2.contains(ps[i]) by {
                assert(d.contains(ps[i]));
                let t = choose|t: int| 0 <= t < d.len() && d[t] == ps[i];
                assert(d2[t] == ps[i]);
            }
            assert(d2[d.len() as int] == ps[n - 1]);
            assert(d2.contains(ps[n - 1]));
        }
    }
}

/// If two pairs never see their key again later, and their keys are equal,
/// they are the same pair.
proof fn lemma_kept_same_key_same_index(ps: Seq<(Seq<char>, Seq<char>)>, i1: int, i2: int)
    requires
        0 <= i1 < ps.len(),
        0 <= i2 < ps.len(),
        !has_later_duplicate(ps, i1),
        !has_later_duplicate(ps, i2),
        ps[i1].0 == ps[i2].0,
    ensures
        i1 == i2,
{
    if i1 < i2 {
        assert(has_later_duplicate(ps, i1));
    } else if i2 < i1 {
        assert(has_later_duplicate(ps, i2));
    }
}

/// Duplicate keys in the body pairs: only the last value of a key survives.
///
/// If the pair at `i` is the last occurrence of its key, then the resolved
/// pair list contains exactly that pair for that key: it contains `ps[i]`,
/// and every entry carrying that key is `ps[i]`.
pub proof fn lemma_last_value_wins(ps: Seq<(Seq<char>, Seq<char>)>, i: int)
    requires
        0 <= i < ps.len(),
        forall|j: int| i < j < ps.len() ==> ps[j].0 != ps[i].0,
    ensures
        dedup(ps).contains(ps[i]),
        forall|t: int| 0 <= t < dedup(ps).len() && dedup(ps)[t].0 == ps[i].0
            ==> dedup(ps)[t] == ps[i],
{
    lemma_dedup_upto_props(ps, ps.len() as int);
    assert(!has_later_duplicate(ps, i));
    let d = dedup(ps);
    assert forall|t: int| 0 <= t < d.len() && d[t].0 == ps[i].0 implies d[t] == ps[i] by {
        let i2 = choose|i2: int|
            0 <= i2 < ps.len() && !has_later_duplicate(ps, i2) && d[t] == ps[i2];
        lemma_kept_same_key_same_index(ps, i, i2);
    }
}

/// The keys of the resolved pair list are pairwise distinct.
pub proof fn lemma_dedup_keys_unique(ps: Seq<(Seq<char>, Seq<char>)>)
    ensures
        forall|t1: int, t2: int|
            0 <= t1 < dedup(ps).len() && 0 <= t2 < dedup(ps).len() && t1 != t2
                ==> dedup(ps)[t1].0 != dedup(ps)[t2].0,
{
    lemma_dedup_upto_props(ps, ps.len() as int);
    let d = dedup(ps);
    assert forall|t1: int, t2: int|
        0 <= t1 < d.len() && 0 <= t2 < d.len() && t1 != t2 implies d[t1].0 != d[t2].0 by {
        let i1 = choose|i1: int|
            0 <= i1 < ps.len() && !has_later_duplicate(ps, i1) && d[t1] == ps[i1];
        let i2 = choose|i2: int|
            0 <= i2 < ps.len() && !has_later_duplicate(ps, i2) && d[t2] == ps[i2];
        if d[t1].0 == d[t2].0 {
            lemma_kept_same_key_same_index(ps, i1, i2);
            lemma_dedup_upto_injective(ps, ps.len() as int, t1, t2);
        }
    }
}

/// Within `dedup_upto`, equal entries stand at equal positions, because the
/// kept source positions are strictly increasing and kept pairs with the
/// same key coincide.
proof fn lemma_dedup_upto_injective(ps: Seq<(Seq<char>, Seq<char>)>, n: int, t1: int, t2: int)
    requires
        0 <= n <= ps.len(),
        0 <= t1 < dedup_upto(ps, n).len(),
        0 <= t2 < dedup_upto(ps, n).len(),
        dedup_upto(ps, n)[t1] == dedup_upto(ps, n)[t2],
    ensures
        t1 == t2,
    decreases n,
{
    let d = dedup_upto(ps, n);
    let dprev = dedup_upto(ps, n - 1);
    if n <= 0 {
    } else if has_later_duplicate(ps, n - 1) {
        lemma_dedup_upto_injective(ps, n - 1, t1, t2);
    } else {
        if t1 < dprev.len() && t2 < dprev.len() {
            lemma_dedup_upto_injective(ps, n - 1, t1, t2);
        } else if t1 == dprev.len() && t2 == dprev.len() {
        } else {
            let tin = if t1 < dprev.len() { t1 } else { t2 };
            assert(tin < dprev.len());
            assert(d[tin] == ps[n - 1]);
            lemma_dedup_upto_props(ps, n - 1);
            let i = choose|i: int|
                0 <= i < n - 1 && !has_later_duplicate(ps, i) && dprev[tin] == ps[i];
            assert(ps[i].0 == ps[n - 1].0);
            lemma_kept_same_key_same_index(ps, i, n - 1);
        }
    }
}

/// Resolves duplicate keys in the pairs: each key once, with the value of
/// its last occurrence, in the order of the last occurrences.
pub fn dedup_pairs(pairs: &Vec<KvPair>) -> (r: Vec<KvPair>)
    ensures
        pairs_view(r@) == dedup(pairs_view(pairs@)),
{
    let ghost ps = pairs_view(pairs@);
    let n = pairs.len();
    let mut out: Vec<KvPair> = Vec::new();
    let mut i: usize = 0;
    while i < n
        invariant
            n == pairs.len(),
            ps == pairs_view(pairs@),
            0 <= i <= n,
            pairs_view(out@) == dedup_upto(ps, i as int),
        decreases n - i,
    {
        let mut dup = false;
        let mut j: usize = i + 1;
        while j < n && !dup
            invariant
                n == pairs.len(),
                ps == pairs_view(pairs@),
                0 <= i < n,
                i + 1 <= j <= n,
                dup ==> has_later_duplicate(ps, i as int),
                !dup ==> forall|jj: int| i < jj < j ==> ps[jj].0 != ps[i as int].0,
            decreases n - j,
        {
            if pairs[j].k == pairs[i].k {
                assert(ps[j as int].0 == ps[i as int].0);
                dup = true;
            } else {
                assert(ps[j as int].0 != ps[i as int].0);
            }
            j = j + 1;
        }
        if !dup {
            assert(!has_later_duplicate(ps, i as int));
            let p = KvPair { k: pairs[i].k.clone(), v: pairs[i].v.clone() };
            out.push(p);
            assert(pairs_view(out@) =~= dedup_upto(ps, i as int + 1));
        } else {
            assert(pairs_view(out@) =~= dedup_upto(ps, i as int + 1));
        }
        i = i + 1;
    }
    assert(pairs_view(out@) == dedup_upto(ps, n as int));
    out
}

/// Appends `escape_str(s@)` to `out`.
fn escape_into(out: &mut String, s: &str)
    ensures
        final(out)@ == old(out)@ + escape_str(s@),
{
    let n = s.unicode_len();
    let mut i: usize = 0;
    while i < n
        invariant
            n == s@.len(),
            0 <= i <= n,
            out@ == old(out)@ + escape_str(s@.subrange(0, i as int)),
        decreases n - i,
    {
        let ghost prefix = s@.subrange(0, i as int);
        let c = s.get_char(i);
        if c == '"' {
            out.append("\\\"");
        } else if c == '\\' {
            out.append("\\\\");
        } else if c == '\n' {
            out.append("\\n");
        } else if c == '\r' {
            out.append("\\r");
        } else if c == '\t' {
            out.append("\\t");
        } else if (c as u32) < 0x20 {
            out.append("\\u00");
            push_char(out, hex_digit((c as u32) / 16));
            push_char(out, hex_digit((c as u32) % 16));
            assert(out@ =~= old(out)@ + escape_str(prefix) + escape_char(c));
        } else {
            push_char(out, c);
            assert(out@ =~= old(out)@ + escape_str(prefix) + escape_char(c));
        }
        proof {
            let prefix2 = s@.subrange(0, i + 1 as int);
            assert(prefix2.drop_last() =~= prefix);
            assert(prefix2.last() == c);
            assert(escape_str(prefix2) == escape_str(prefix) + escape_char(c));
            assert(out@ =~= old(out)@ + escape_str(prefix2));
        }
        i = i + 1;
    }
    proof {
        assert(s@.subrange(0, n as int) =~= s@);
    }
}

/// The lower-case hexadecimal digit for `d`.
fn hex_digit(d: u32) -> (c: char)
    requires
        d < 16,
    ensures
        c == digit_char(d as int),
{
    if d == 0 { '0' }
    else if d == 1 { '1' }
    else if d == 2 { '2' }
    else if d == 3 { '3' }
    else if d == 4 { '4' }
    else if d == 5 { '5' }
    else if d == 6 { '6' }
    else if d == 7 { '7' }
    else if d == 8 { '8' }
    else if d == 9 { '9' }
    else if d == 10 { 'a' }
    else if d == 11 { 'b' }
    else if d == 12 { 'c' }
    else if d == 13 { 'd' }
    else if d == 14 { 'e' }
    else { 'f' }
}

/// Relies on `String::push`: appends the one character to the string.
#[verifier::external_body]
pub(crate) fn push_char(out: &mut String, c: char)
    ensures
        final(out)@ == old(out)@.push(c),
{
    out.push(c);
}

/// Serializes the pairs as a JSON object, in order, without resolving
/// duplicate keys.
fn render_object(pairs: &Vec<KvPair>) -> (r: String)
    ensures
        r@ == json_object(pairs_view(pairs@)),
{
    let ghost ps = pairs_view(pairs@);
    let n = pairs.len();
    let mut out: String = "{".to_owned();
    let mut i: usize = 0;
    while i < n
        invariant
            n == pairs.len(),
            ps == pairs_view(pairs@),
            0 <= i <= n,
            out@ == "{"@ + json_members(ps.subrange(0, i as int)),
        decreases n - i,
    {
        let ghost prefix = ps.subrange(0, i as int);
        if i > 0 {
            out.append(",");
        }
        out.append("\"");
        escape_into(&mut out, pairs[i].k.as_str());
        out.append("\":\"");
        escape_into(&mut out, pairs[i].v.as_str());
        out.append("\"");
        proof {
            let prefix2 = ps.subrange(0, i + 1 as int);
            assert(prefix2.drop_last() =~= prefix);
            assert(prefix2.last() == ps[i as int]);
            if i == 0 {
                assert(json_members(prefix2) == json_member(ps[0].0, ps[0].1));
            }
            assert(out@ =~= "{"@ + json_members(prefix2));
        }
        i = i + 1;
    }
    out.append("}");
    proof {
        assert(ps.subrange(0, n as int) =~= ps);
        assert(out@ =~= json_object(ps));
    }
    out
}

/// Builds the JSON body for the given pairs: duplicate keys resolved to
/// their last value, then serialized as one JSON object.
pub fn build_body(pairs: &Vec<KvPair>) -> (r: String)
    ensures
        r@ == json_object(dedup(pairs_view(pairs@))),
{
    let d = dedup_pairs(pairs);
    render_object(&d)
}

} // verus!
