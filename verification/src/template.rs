//! Placeholder templates: text in which `{{ key }}` stands for the value of a
//! variable.

use crate::text::{
    chars_of, find_pair, first_pair, lemma_first_pair_absent, no_pair_from, pair_at,
    string_of_range,
};
use vstd::prelude::*;

verus! {

/// One piece of a template.
#[derive(Debug, Clone, PartialEq, Eq)]
pub enum Part {
    /// Text that stands for itself.
    Literal(String),
    /// A placeholder, held as its key.
    Key(String),
}

/// The mathematical value of a `Part`.
pub enum PartModel {
    Literal(Seq<char>),
    Key(Seq<char>),
}

impl DeepView for Part {
    type V = PartModel;

    open spec fn deep_view(&self) -> PartModel {
        match self {
            Part::Literal(s) => PartModel::Literal(s@),
            Part::Key(s) => PartModel::Key(s@),
        }
    }
}

/// A parsed template: literals and placeholders in the order of the text.
#[derive(Debug, Clone, PartialEq, Eq)]
pub struct Template {
    pub parts: Vec<Part>,
}

impl DeepView for Template {
    type V = Seq<PartModel>;

    open spec fn deep_view(&self) -> Seq<PartModel> {
        self.parts.deep_view()
    }
}

/// Why a text is no template.
#[derive(Debug, Clone, Copy, PartialEq, Eq, Structural)]
pub enum TemplateSyntaxError {
    /// A `{{` with no `}}` after it.
    UnmatchedOpen,
    /// A `}}` outside any placeholder.
    UnmatchedClose,
    /// The text between `{{` and `}}` is no key.
    MalformedKey,
}

/// The characters that may surround a key inside a placeholder.
pub open spec fn is_space(c: char) -> bool {
    c == ' ' || c == '\t' || c == '\n' || c == '\r'
}

/// The characters that a key is made of.
pub open spec fn is_key_char(c: char) -> bool {
    ('a' <= c && c <= 'z') || ('0' <= c && c <= '9') || c == '_'
}

/// A key is not empty, starts with a lower-case letter, holds only lower-case
/// letters, digits and underscores, does not end with an underscore and has no
/// two underscores in a row.
pub open spec fn valid_key(k: Seq<char>) -> bool {
    &&& k.len() > 0
    &&& 'a' <= k[0] && k[0] <= 'z'
    &&& k[k.len() - 1] != '_'
    &&& forall|i: int| 0 <= i < k.len() ==> is_key_char(#[trigger] k[i])
    &&& forall|i: int| !pair_at(k, '_', i)
}

/// The first position in `lo..hi` that holds no space, or `hi`.
pub open spec fn skip_spaces(s: Seq<char>, lo: int, hi: int) -> int
    decreases hi - lo,
{
    if lo < hi && 0 <= lo < s.len() && is_space(s[lo]) {
        skip_spaces(s, lo + 1, hi)
    } else {
        lo
    }
}

/// The end of `lo..hi` once the spaces at its end are left out.
pub open spec fn skip_spaces_back(s: Seq<char>, lo: int, hi: int) -> int
    decreases hi - lo,
{
    if lo < hi && 0 < hi <= s.len() && is_space(s[hi - 1]) {
        skip_spaces_back(s, lo, hi - 1)
    } else {
        hi
    }
}

/// The text of `lo..hi` without the spaces at its start and at its end.
pub open spec fn trimmed(s: Seq<char>, lo: int, hi: int) -> Seq<char> {
    let a = skip_spaces(s, lo, hi);
    let b = skip_spaces_back(s, a, hi);
    s.subrange(a, b)
}

/// A literal text as template parts: nothing for the empty text.
pub open spec fn literal_parts(text: Seq<char>) -> Seq<PartModel> {
    if text.len() == 0 {
        Seq::empty()
    } else {
        seq![PartModel::Literal(text)]
    }
}

/// The end of the literal text that starts at `pos`: the next `{{`, or the end
/// of `s`.
pub open spec fn text_end(s: Seq<char>, pos: int) -> int {
    match first_pair(s, '{', pos) {
        Some(o) => o,
        None => s.len() as int,
    }
}

/// True when a `}}` starts inside the literal text that starts at `pos`.
pub open spec fn stray_close(s: Seq<char>, pos: int) -> bool {
    match first_pair(s, '}', pos) {
        Some(c) => c < text_end(s, pos),
        None => false,
    }
}

/// The parts of `s` from `pos` on. Literal text runs to the next `{{`; a `}}`
/// inside it is an error. After `{{` the placeholder runs to the next `}}`,
/// and what stands between them, spaces at both ends left out, must be a key.
/// The first fault from the left decides the error.
pub open spec fn parse_from(s: Seq<char>, pos: int) -> Result<Seq<PartModel>, TemplateSyntaxError>
    decreases s.len() - pos,
{
    if stray_close(s, pos) {
        Err(TemplateSyntaxError::UnmatchedClose)
    } else {
        match first_pair(s, '{', pos) {
            None => Ok(literal_parts(s.subrange(pos, s.len() as int))),
            Some(o) => match first_pair(s, '}', o + 2) {
                None => Err(TemplateSyntaxError::UnmatchedOpen),
                Some(c) => {
                    let key = trimmed(s, o + 2, c);
                    if !valid_key(key) {
                        Err(TemplateSyntaxError::MalformedKey)
                    } else {
                        match parse_from(s, c + 2) {
                            Err(e) => Err(e),
                            Ok(rest) => Ok(
                                literal_parts(s.subrange(pos, o)) + seq![PartModel::Key(key)]
                                    + rest,
                            ),
                        }
                    }
                },
            },
        }
    }
}

/// The parts of the template that `s` is, or why it is none.
pub open spec fn parse_spec(s: Seq<char>) -> Result<Seq<PartModel>, TemplateSyntaxError> {
    parse_from(s, 0)
}

/// The parts `acc` followed by those of a parse result.
pub open spec fn prefixed(
    acc: Seq<PartModel>,
    rest: Result<Seq<PartModel>, TemplateSyntaxError>,
) -> Result<Seq<PartModel>, TemplateSyntaxError> {
    match rest {
        Ok(parts) => Ok(acc + parts),
        Err(e) => Err(e),
    }
}

/// The view of a parse result.
pub open spec fn parsed_view(r: Result<Template, TemplateSyntaxError>) -> Result<
    Seq<PartModel>,
    TemplateSyntaxError,
> {
    match r {
        Ok(t) => Ok(t.deep_view()),
        Err(e) => Err(e),
    }
}

/// The first position in `lo..hi` that holds no space, or `hi`.
pub fn skip_spaces_in(s: &Vec<char>, lo: usize, hi: usize) -> (r: usize)
    requires
        lo <= hi <= s@.len(),
    ensures
        r == skip_spaces(s@, lo as int, hi as int),
        lo <= r <= hi,
{
    let mut i: usize = lo;
    while i < hi && (s[i] == ' ' || s[i] == '\t' || s[i] == '\n' || s[i] == '\r')
        invariant
            lo <= i <= hi <= s@.len(),
            skip_spaces(s@, lo as int, hi as int) == skip_spaces(s@, i as int, hi as int),
        decreases hi - i,
    {
        i += 1;
    }
    i
}

/// The end of `lo..hi` once the spaces at its end are left out.
pub fn skip_spaces_back_in(s: &Vec<char>, lo: usize, hi: usize) -> (r: usize)
    requires
        lo <= hi <= s@.len(),
    ensures
        r == skip_spaces_back(s@, lo as int, hi as int),
        lo <= r <= hi,
{
    let mut j: usize = hi;
    while lo < j && (s[j - 1] == ' ' || s[j - 1] == '\t' || s[j - 1] == '\n' || s[j - 1] == '\r')
        invariant
            lo <= j <= hi <= s@.len(),
            skip_spaces_back(s@, lo as int, hi as int) == skip_spaces_back(
                s@,
                lo as int,
                j as int,
            ),
        decreases j - lo,
    {
        j -= 1;
    }
    j
}

/// True exactly when `s[lo..hi]` is a key.
pub fn is_valid_key(s: &Vec<char>, lo: usize, hi: usize) -> (r: bool)
    requires
        lo <= hi <= s@.len(),
    ensures
        r == valid_key(s@.subrange(lo as int, hi as int)),
{
    let ghost k = s@.subrange(lo as int, hi as int);
    if lo == hi {
        return false;
    }
    let first: char = s[lo];
    let last: char = s[hi - 1];
    assert(k[0] == first && k[k.len() - 1] == last);
    if !('a' <= first && first <= 'z') || last == '_' {
        return false;
    }
    let mut i: usize = lo;
    while i < hi
        invariant
            lo <= i <= hi <= s@.len(),
            k == s@.subrange(lo as int, hi as int),
            forall|j: int| 0 <= j < i - lo ==> is_key_char(#[trigger] k[j]),
            forall|j: int| j < i - lo ==> !pair_at(k, '_', j),
        decreases hi - i,
    {
        let c: char = s[i];
        assert(k[i - lo] == c);
        if !(('a' <= c && c <= 'z') || ('0' <= c && c <= '9') || c == '_') {
            return false;
        }
        if c == '_' && i + 1 < hi && s[i + 1] == '_' {
            assert(pair_at(k, '_', i - lo));
            return false;
        }
        i += 1;
    }
    true
}

impl Template {
    /// Parses `raw` into a template.
    pub fn parse(raw: &str) -> (r: Result<Template, TemplateSyntaxError>)
        ensures
            parsed_view(r) == parse_spec(raw@),
    {
        let s = chars_of(raw);
        let n: usize = s.len();
        let mut parts: Vec<Part> = Vec::new();
        let mut pos: usize = 0;
        loop
            invariant
                pos <= n,
                n == s@.len(),
                s@ == raw@,
                prefixed(parts.deep_view(), parse_from(s@, pos as int)) == parse_from(s@, 0),
            decreases n - pos,
        {
            let ghost acc = parts.deep_view();
            let open = find_pair(&s, '{', pos);
            let close = find_pair(&s, '}', pos);
            let end: usize = match open {
                Some(o) => o,
                None => n,
            };
            if let Some(c) = close {
                if c < end {
                    return Err(TemplateSyntaxError::UnmatchedClose);
                }
            }
            if pos < end {
                parts.push(Part::Literal(string_of_range(&s, pos, end)));
            }
            let ghost with_text = parts.deep_view();
            assert(with_text =~= acc + literal_parts(s@.subrange(pos as int, end as int)));
            match open {
                None => {
                    return Ok(Template { parts });
                },
                Some(o) => {
                    match find_pair(&s, '}', o + 2) {
                        None => {
                            return Err(TemplateSyntaxError::UnmatchedOpen);
                        },
                        Some(c) => {
                            let a: usize = skip_spaces_in(&s, o + 2, c);
                            let b: usize = skip_spaces_back_in(&s, a, c);
                            if !is_valid_key(&s, a, b) {
                                return Err(TemplateSyntaxError::MalformedKey);
                            }
                            parts.push(Part::Key(string_of_range(&s, a, b)));
                            proof {
                                let key = trimmed(s@, o + 2, c as int);
                                assert(parts.deep_view() =~= with_text.push(PartModel::Key(key)));
                                match parse_from(s@, c + 2) {
                                    Ok(rest) => {
                                        assert(parts.deep_view() + rest =~= acc + (literal_parts(
                                            s@.subrange(pos as int, o as int),
                                        ) + seq![PartModel::Key(key)] + rest));
                                    },
                                    Err(_) => {},
                                }
                            }
                            pos = c + 2;
                        },
                    }
                },
            }
        }
    }
}

/// A text in which neither `{{` nor `}}` occurs is a template of its own
/// text: one literal, or nothing when the text is empty.
pub proof fn lemma_parse_plain_text(s: Seq<char>)
    requires
        no_pair_from(s, '{', 0),
        no_pair_from(s, '}', 0),
    ensures
        parse_spec(s) == Ok::<Seq<PartModel>, TemplateSyntaxError>(literal_parts(s)),
{
    lemma_first_pair_absent(s, '{', 0);
    lemma_first_pair_absent(s, '}', 0);
    assert(s.subrange(0, s.len() as int) =~= s);
}

} // verus!
