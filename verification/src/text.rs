//! Helpers on strings, stated over their views as sequences of characters:
//! equality, the dictionary order by which theme names are sorted, and the
//! trimming of surrounding white space.

use vstd::prelude::*;

verus! {

/// Whether `c` has Unicode's `White_Space` property, as `char::is_whitespace` decides it.
pub uninterp spec fn white_space(c: char) -> bool;

/// `char::is_whitespace`: tells whether a character has the `White_Space`
/// property. The set of such characters is fixed by the Unicode tables that
/// std carries, so the result is named rather than spelled out.
#[verifier::external_body]
fn is_white_space(c: char) -> (white: bool)
    ensures
        white == white_space(c),
{
    c.is_whitespace()
}

/// How many characters of white space `s` starts with.
pub open spec fn leading_white(s: Seq<char>) -> nat
    decreases s.len(),
{
    if s.len() > 0 && white_space(s[0]) {
        1 + leading_white(s.skip(1))
    } else {
        0
    }
}

/// How many characters of white space `s` ends with.
pub open spec fn trailing_white(s: Seq<char>) -> nat
    decreases s.len(),
{
    if s.len() > 0 && white_space(s.last()) {
        1 + trailing_white(s.drop_last())
    } else {
        0
    }
}

/// `s` without the white space at its start and at its end.
pub open spec fn trimmed(s: Seq<char>) -> Seq<char> {
    let rest = s.skip(leading_white(s) as int);
    rest.take(rest.len() - trailing_white(rest))
}

/// Dictionary order on texts: characters are compared by code point, and a
/// text comes before every longer text that it starts.
pub open spec fn text_le(a: Seq<char>, b: Seq<char>) -> bool
    decreases a.len(),
{
    if a.len() == 0 {
        true
    } else if b.len() == 0 {
        false
    } else if a[0] != b[0] {
        a[0] < b[0]
    } else {
        text_le(a.skip(1), b.skip(1))
    }
}

/// Whether each text of `names` comes no later in dictionary order than all that follow it.
pub open spec fn ascending(names: Seq<Seq<char>>) -> bool {
    forall|i: int, j: int| 0 <= i < j < names.len() ==> text_le(names[i], names[j])
}

/// Of two texts, one comes no later than the other.
pub proof fn lemma_text_le_total(a: Seq<char>, b: Seq<char>)
    ensures
        text_le(a, b) || text_le(b, a),
    decreases a.len(),
{
    if a.len() > 0 && b.len() > 0 && a[0] == b[0] {
        lemma_text_le_total(a.skip(1), b.skip(1));
    }
}

/// The dictionary order is transitive.
pub proof fn lemma_text_le_transitive(a: Seq<char>, b: Seq<char>, c: Seq<char>)
    requires
        text_le(a, b),
        text_le(b, c),
    ensures
        text_le(a, c),
    decreases a.len(),
{
    if a.len() > 0 && b.len() > 0 && c.len() > 0 && a[0] == b[0] && b[0] == c[0] {
        lemma_text_le_transitive(a.skip(1), b.skip(1), c.skip(1));
    }
}

/// Two texts that each come no later than the other are the same text.
pub proof fn lemma_text_le_antisymmetric(a: Seq<char>, b: Seq<char>)
    requires
        text_le(a, b),
        text_le(b, a),
    ensures
        a == b,
    decreases a.len(),
{
    if a.len() > 0 && b.len() > 0 {
        lemma_text_le_antisymmetric(a.skip(1), b.skip(1));
        assert(a =~= seq![a[0]] + a.skip(1));
        assert(b =~= seq![b[0]] + b.skip(1));
    } else {
        assert(a =~= b);
    }
}

/// Whether two string slices hold the same characters.
pub fn same_text(a: &str, b: &str) -> (same: bool)
    ensures
        same == (a@ == b@),
{
    let left = a.to_owned();
    let right = b.to_owned();
    left == right
}

/// Whether `a` comes no later than `b` in dictionary order.
pub fn comes_first(a: &str, b: &str) -> (first: bool)
    ensures
        first == text_le(a@, b@),
{
    let a_len = a.unicode_len();
    let b_len = b.unicode_len();
    let mut at: usize = 0;
    proof {
        assert(a@.skip(0) =~= a@);
        assert(b@.skip(0) =~= b@);
    }
    while at < a_len && at < b_len
        invariant
            at <= a_len,
            at <= b_len,
            a_len == a@.len(),
            b_len == b@.len(),
            text_le(a@, b@) == text_le(a@.skip(at as int), b@.skip(at as int)),
        decreases a_len - at,
    {
        let x = a.get_char(at);
        let y = b.get_char(at);
        proof {
            assert(a@.skip(at as int).skip(1) =~= a@.skip(at + 1));
            assert(b@.skip(at as int).skip(1) =~= b@.skip(at + 1));
        }
        if x != y {
            return x < y;
        }
        at = at + 1;
    }
    at == a_len
}

/// A copy of `s` without the white space that surrounds it.
pub fn trim(s: &str) -> (inner: String)
    ensures
        inner@ == trimmed(s@),
{
    let len = s.unicode_len();
    let mut start: usize = 0;
    let mut more = true;
    proof {
        assert(s@.skip(0) =~= s@);
    }
    while more && start < len
        invariant
            start <= len,
            len == s@.len(),
            leading_white(s@) == start + leading_white(s@.skip(start as int)),
            !more ==> leading_white(s@.skip(start as int)) == 0,
        decreases len - start + if more { 1nat } else { 0nat },
    {
        if is_white_space(s.get_char(start)) {
            proof {
                assert(s@.skip(start as int).skip(1) =~= s@.skip(start + 1));
            }
            start = start + 1;
        } else {
            more = false;
        }
    }
    let ghost rest = s@.skip(start as int);
    let mut end: usize = len;
    more = true;
    while more && end > start
        invariant
            start <= end <= len,
            len == s@.len(),
            rest == s@.skip(start as int),
            trailing_white(rest) == (len - end) + trailing_white(s@.subrange(start as int, end as int)),
            !more ==> trailing_white(s@.subrange(start as int, end as int)) == 0,
        decreases end - start + if more { 1nat } else { 0nat },
    {
        if is_white_space(s.get_char(end - 1)) {
            proof {
                assert(s@.subrange(start as int, end as int).drop_last() =~= s@.subrange(
                    start as int,
                    end - 1,
                ));
            }
            end = end - 1;
        } else {
            more = false;
        }
    }
    proof {
        assert(s@.subrange(start as int, len as int) =~= rest);
        assert(rest.take(rest.len() - trailing_white(rest)) =~= s@.subrange(
            start as int,
            end as int,
        ));
    }
    s.substring_char(start, end).to_owned()
}

} // verus!
