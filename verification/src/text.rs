//! Conversions between strings and character sequences, and ASCII case mapping.

use vstd::prelude::*;
use vstd::string::*;

verus! {

/// The ASCII upper-case form of a character: `a`..`z` map to `A`..`Z`,
/// every other character is unchanged.
pub open spec fn ascii_upper(c: char) -> char {
    if 'a' <= c && c <= 'z' {
        ((c as u8 - 32) as u8) as char
    } else {
        c
    }
}

/// A character sequence with `ascii_upper` applied to each position.
pub open spec fn ascii_upper_seq(s: Seq<char>) -> Seq<char> {
    Seq::new(s.len(), |i: int| ascii_upper(s[i]))
}

/// True when `c` occurs at both position `i` and position `i + 1` of `s`.
pub open spec fn pair_at(s: Seq<char>, c: char, i: int) -> bool {
    0 <= i && i + 1 < s.len() && s[i] == c && s[i + 1] == c
}

/// True when `i` is the first position at or after `from` where a pair of `c` starts.
pub open spec fn is_first_pair(s: Seq<char>, c: char, from: int, i: int) -> bool {
    &&& from <= i
    &&& pair_at(s, c, i)
    &&& forall|j: int| from <= j < i ==> !pair_at(s, c, j)
}

/// True when no pair of `c` starts at or after `from`.
pub open spec fn no_pair_from(s: Seq<char>, c: char, from: int) -> bool {
    forall|j: int| from <= j ==> !pair_at(s, c, j)
}

/// The first position at or after `from` where a pair of `c` starts, if any.
pub open spec fn first_pair(s: Seq<char>, c: char, from: int) -> Option<int> {
    if exists|i: int| is_first_pair(s, c, from, i) {
        Some(choose|i: int| is_first_pair(s, c, from, i))
    } else {
        None
    }
}

/// A first pair position is unique, and `first_pair` names it.
pub proof fn lemma_first_pair_found(s: Seq<char>, c: char, from: int, i: int)
    requires
        is_first_pair(s, c, from, i),
    ensures
        first_pair(s, c, from) == Some(i),
{
    let k = choose|k: int| is_first_pair(s, c, from, k);
    if k < i {
        assert(!pair_at(s, c, k));
    } else if i < k {
        assert(!pair_at(s, c, i));
    }
}

/// Where no pair starts at or after `from`, `first_pair` is `None`.
pub proof fn lemma_first_pair_absent(s: Seq<char>, c: char, from: int)
    requires
        no_pair_from(s, c, from),
    ensures
        first_pair(s, c, from) is None,
{
    if exists|i: int| is_first_pair(s, c, from, i) {
        let k = choose|k: int| is_first_pair(s, c, from, k);
        assert(!pair_at(s, c, k));
    }
}

/// `str::to_ascii_uppercase`: the result has the same length as the input and
/// holds, at each position, the ASCII upper-case form of the input's character.
#[verifier::external_body]
pub(crate) fn to_ascii_uppercase(s: &str) -> (r: String)
    ensures
        r@ == ascii_upper_seq(s@),
{
    s.to_ascii_uppercase()
}

/// `String::push`: the character is appended to the end of the string.
#[verifier::external_body]
pub(crate) fn push_char(s: &mut String, c: char)
    ensures
        final(s)@ == old(s)@.push(c),
{
    s.push(c)
}

/// The characters of a string, in order.
pub fn chars_of(s: &str) -> (v: Vec<char>)
    ensures
        v@ == s@,
{
    let mut v: Vec<char> = Vec::new();
    for c in it: s.chars()
        invariant
            it.seq() == s@,
            v@ == it.seq().take(it.index() as int),
    {
        v.push(c);
        assert(v@ =~= it.seq().take(it.index() + 1));
    }
    assert(v@ =~= s@);
    v
}

/// The string made of the characters `v[lo..hi]`.
pub fn string_of_range(v: &Vec<char>, lo: usize, hi: usize) -> (r: String)
    requires
        lo <= hi <= v@.len(),
    ensures
        r@ == v@.subrange(lo as int, hi as int),
{
    let mut r: String = String::new();
    let mut i: usize = lo;
    while i < hi
        invariant
            lo <= i <= hi <= v@.len(),
            r@ == v@.subrange(lo as int, i as int),
        decreases hi - i,
    {
        push_char(&mut r, v[i]);
        i += 1;
        assert(r@ =~= v@.subrange(lo as int, i as int));
    }
    r
}

/// The first position at or after `from` where two consecutive `c` start.
pub fn find_pair(s: &Vec<char>, c: char, from: usize) -> (r: Option<usize>)
    requires
        from <= s@.len(),
    ensures
        match r {
            Some(i) => first_pair(s@, c, from as int) == Some(i as int) && is_first_pair(
                s@,
                c,
                from as int,
                i as int,
            ),
            None => first_pair(s@, c, from as int) is None && no_pair_from(s@, c, from as int),
        },
{
    let n: usize = s.len();
    let mut i: usize = from;
    while i < n && i + 1 < n
        invariant
            from <= i <= n,
            n == s@.len(),
            forall|j: int| from as int <= j < i as int ==> !pair_at(s@, c, j),
        decreases n - i,
    {
        if s[i] == c && s[i + 1] == c {
            proof {
                lemma_first_pair_found(s@, c, from as int, i as int);
            }
            return Some(i);
        }
        i += 1;
    }
    proof {
        assert(no_pair_from(s@, c, from as int));
        lemma_first_pair_absent(s@, c, from as int);
    }
    None
}

/// True exactly when the text holds the placeholder opening `{{` somewhere.
pub fn contains_open_delimiter(s: &str) -> (r: bool)
    ensures
        r == has_open_delimiter(s@),
{
    let v = chars_of(s);
    find_pair(&v, '{', 0).is_some()
}

/// True when two consecutive `{` occur somewhere in `s`.
pub open spec fn has_open_delimiter(s: Seq<char>) -> bool {
    exists|i: int| pair_at(s, '{', i)
}

} // verus!
