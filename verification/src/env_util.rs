//! Environment variables in a path: a reference is written `$ENV{name}`.
//! This module finds the references and puts values in their place; looking
//! a name up in the environment is the caller's part.
//!
//! A name begins with a letter, a digit or `_`, and goes on with letters,
//! digits, `_` and `.`. A `$ENV{` that is not followed by a name and `}` is
//! no reference and stays as it is, and so does a reference whose variable
//! is not set.

use vstd::prelude::*;
use vstd::string::*;

verus! {

/// How many characters `$ENV{` has.
pub const ENV_PREFIX_LEN: usize = 5;

/// Whether `std` counts the character as a letter or a digit.
pub uninterp spec fn alphanumeric(c: char) -> bool;

/// Whether the character is a letter or a digit. Within ASCII these are
/// `0` to `9`, `A` to `Z` and `a` to `z`; beyond ASCII it is what `std`
/// counts as one.
pub open spec fn letter_or_digit(c: char) -> bool {
    let code = c as u32;
    if code < 0x80 {
        (0x30 <= code <= 0x39) || (0x41 <= code <= 0x5a) || (0x61 <= code <= 0x7a)
    } else {
        alphanumeric(c)
    }
}

/// `char::is_alphanumeric`. The claim: the answer depends on the character
/// alone, and within ASCII it is yes for the digits and the letters and no
/// for everything else.
#[verifier::external_body]
fn is_alphanumeric(c: char) -> (r: bool)
    ensures
        r == alphanumeric(c),
        r == letter_or_digit(c),
{
    c.is_alphanumeric()
}

/// `str::replace` with a string slice as the pattern. The claim: every
/// match of the pattern, found from left to right without overlap, is
/// replaced. The pattern must not be empty.
#[verifier::external_body]
fn replace(text: &str, from: &str, to: &str) -> (r: String)
    requires
        from@.len() > 0,
    ensures
        r@ == replace_all(text@, from@, to@),
{
    text.replace(from, to)
}

/// A text with every match of `from` replaced by `to`, the matches found
/// from left to right without overlap.
pub open spec fn replace_all(text: Seq<char>, from: Seq<char>, to: Seq<char>) -> Seq<char>
    recommends
        from.len() > 0,
    decreases text.len(),
{
    if from.len() == 0 || text.len() < from.len() {
        text
    } else if text.take(from.len() as int) == from {
        to + replace_all(text.skip(from.len() as int), from, to)
    } else {
        seq![text[0]] + replace_all(text.skip(1), from, to)
    }
}

/// Whether a name may begin with the character.
pub open spec fn env_var_start(c: char) -> bool {
    letter_or_digit(c) || c == '_'
}

/// Whether a name may go on with the character.
pub open spec fn env_var_part(c: char) -> bool {
    letter_or_digit(c) || c == '_' || c == '.'
}

/// Whether `$ENV{` stands at position `i`.
pub open spec fn prefix_at(path: Seq<char>, i: int) -> bool {
    &&& 0 <= i
    &&& i + 5 <= path.len()
    &&& path[i] == '$'
    &&& path[i + 1] == 'E'
    &&& path[i + 2] == 'N'
    &&& path[i + 3] == 'V'
    &&& path[i + 4] == '{'
}

/// The first position at or after `i` that holds no character of a name;
/// the length of the path if there is none.
pub open spec fn name_end(path: Seq<char>, i: int) -> int
    decreases path.len() - i,
{
    if 0 <= i < path.len() && env_var_part(path[i]) {
        name_end(path, i + 1)
    } else {
        i
    }
}

/// Where the reference that begins at `i` ends (the position after its
/// `}`), if a reference begins there.
pub open spec fn reference_end(path: Seq<char>, i: int) -> Option<int> {
    if prefix_at(path, i) && i + 5 < path.len() && env_var_start(path[i + 5]) {
        let end = name_end(path, i + 6);
        if end < path.len() && path[end] == '}' {
            Some(end + 1)
        } else {
            None
        }
    } else {
        None
    }
}

/// A reference: the positions, counted in characters, of its `$` and of
/// the character after its `}`.
#[derive(Clone, Copy, Debug, PartialEq, Eq, Structural)]
pub struct EnvReference {
    pub start: usize,
    pub end: usize,
}

/// The references of a path that begin before position `limit`, in the
/// order in which they stand.
pub open spec fn references_before(path: Seq<char>, limit: int) -> Seq<EnvReference>
    decreases limit,
{
    if limit <= 0 {
        Seq::empty()
    } else {
        let earlier = references_before(path, limit - 1);
        match reference_end(path, limit - 1) {
            Some(end) => earlier.push(
                EnvReference { start: (limit - 1) as usize, end: end as usize },
            ),
            None => earlier,
        }
    }
}

/// The references of a path, in the order in which they stand.
pub open spec fn references(path: Seq<char>) -> Seq<EnvReference> {
    references_before(path, path.len() as int)
}

/// The name of a reference: what stands between `$ENV{` and `}`.
pub open spec fn reference_name(path: Seq<char>, reference: EnvReference) -> Seq<char> {
    path.subrange(reference.start + 5, reference.end - 1)
}

/// The names of the given references.
pub open spec fn reference_names(path: Seq<char>, found: Seq<EnvReference>) -> Seq<Seq<char>> {
    found.map_values(|r: EnvReference| reference_name(path, r))
}

/// A path with values in the place of references. The references are
/// taken one after the other, the `i`-th with the `i`-th value. Where there
/// is a value, the text so far has every occurrence of that reference
/// replaced by it; where there is none, or the values have run out, the text
/// is left as it is.
pub open spec fn expanded(
    path: Seq<char>,
    found: Seq<EnvReference>,
    values: Seq<Option<Seq<char>>>,
) -> Seq<char>
    decreases found.len(),
{
    if found.len() == 0 {
        path
    } else {
        let so_far = expanded(path, found.drop_last(), values);
        let k = found.len() - 1;
        if k < values.len() {
            match values[k] {
                Some(value) => replace_all(
                    so_far,
                    path.subrange(found[k].start as int, found[k].end as int),
                    value,
                ),
                None => so_far,
            }
        } else {
            so_far
        }
    }
}

/// The view of each of the values.
pub open spec fn values_view(values: Seq<Option<String>>) -> Seq<Option<Seq<char>>> {
    values.map_values(
        |v: Option<String>|
            match v {
                Some(s) => Some(s@),
                None => None,
            },
    )
}

/// Whether a name may begin with the character: a letter, a digit or `_`.
pub fn is_env_var_start(c: char) -> (r: bool)
    ensures
        r == env_var_start(c),
{
    is_alphanumeric(c) || c == '_'
}

/// Whether a name may go on with the character: a letter, a digit, `_`
/// or `.`.
pub fn is_env_var_part(c: char) -> (r: bool)
    ensures
        r == env_var_part(c),
{
    is_alphanumeric(c) || c == '_' || c == '.'
}

/// The characters of a text.
fn chars_of(text: &str) -> (chars: Vec<char>)
    ensures
        chars@ == text@,
{
    let n = text.unicode_len();
    let mut chars: Vec<char> = Vec::new();
    let mut i: usize = 0;
    while i < n
        invariant
            n == text@.len(),
            i <= n,
            chars@ == text@.take(i as int),
        decreases n - i,
    {
        chars.push(text.get_char(i));
        assert(chars@ =~= text@.take(i + 1));
        i = i + 1;
    }
    assert(text@.take(n as int) =~= text@);
    chars
}

/// Where the reference that begins at `i` ends, if one begins there.
fn reference_end_at(chars: &Vec<char>, i: usize) -> (r: Option<usize>)
    requires
        i < chars@.len(),
    ensures
        match r {
            Some(end) => reference_end(chars@, i as int) == Some(end as int) && i + 7 <= end
                <= chars@.len(),
            None => reference_end(chars@, i as int).is_none(),
        },
{
    let n = chars.len();
    if n - i < 6 {
        return None;
    }
    if !(chars[i] == '$' && chars[i + 1] == 'E' && chars[i + 2] == 'N' && chars[i + 3] == 'V'
        && chars[i + 4] == '{') {
        return None;
    }
    if !is_env_var_start(chars[i + 5]) {
        return None;
    }
    let mut end: usize = i + 6;
    while end < n && is_env_var_part(chars[end])
        invariant
            n == chars@.len(),
            i + 6 <= end <= n,
            name_end(chars@, i + 6) == name_end(chars@, end as int),
        decreases n - end,
    {
        end = end + 1;
    }
    if end < n && chars[end] == '}' {
        Some(end + 1)
    } else {
        None
    }
}

/// Finds the references of a path.
pub fn env_var_references(path: &str) -> (found: Vec<EnvReference>)
    ensures
        found@ == references(path@),
        forall|k: int|
            0 <= k < found@.len() ==> (#[trigger] found@[k]).start + 7 <= found@[k].end
                <= path@.len(),
{
    let chars = chars_of(path);
    let mut found: Vec<EnvReference> = Vec::new();
    let mut i: usize = 0;
    while i < chars.len()
        invariant
            chars@ == path@,
            i <= chars@.len(),
            found@ == references_before(path@, i as int),
            forall|k: int|
                0 <= k < found@.len() ==> (#[trigger] found@[k]).start + 7 <= found@[k].end
                    <= path@.len(),
        decreases chars@.len() - i,
    {
        match reference_end_at(&chars, i) {
            Some(end) => {
                found.push(EnvReference { start: i, end });
            },
            None => {},
        }
        i = i + 1;
    }
    found
}

/// The names of the environment variables that a path refers to, one for
/// each reference, in the order in which the references stand.
pub fn env_var_names(path: &str) -> (names: Vec<String>)
    ensures
        names@.map_values(|s: String| s@) == reference_names(path@, references(path@)),
{
    let found = env_var_references(path);
    let mut names: Vec<String> = Vec::new();
    let mut k: usize = 0;
    assert(names@.map_values(|s: String| s@) =~= reference_names(path@, found@.take(0)));
    while k < found.len()
        invariant
            found@ == references(path@),
            forall|j: int|
                0 <= j < found@.len() ==> (#[trigger] found@[j]).start + 7 <= found@[j].end
                    <= path@.len(),
            k <= found@.len(),
            names@.map_values(|s: String| s@) == reference_names(path@, found@.take(k as int)),
        decreases found@.len() - k,
    {
        let reference = found[k];
        let name = path.substring_char(reference.start + ENV_PREFIX_LEN, reference.end - 1);
        let ghost before = names@.map_values(|s: String| s@);
        names.push(String::from_str(name));
        proof {
            let earlier = found@.take(k as int);
            assert(names@.map_values(|s: String| s@) =~= before.push(name@));
            assert(found@.take(k + 1) =~= earlier.push(reference));
            assert(reference_names(path@, earlier.push(reference)) =~= reference_names(
                path@,
                earlier,
            ).push(reference_name(path@, reference)));
        }
        k = k + 1;
    }
    assert(found@.take(found@.len() as int) =~= found@);
    names
}

/// Puts values in the place of the references of a path: the `i`-th value
/// is for the `i`-th reference, `None` where the variable is not set.
pub fn expand_env_vars(path: &str, values: &Vec<Option<String>>) -> (out: String)
    ensures
        out@ == expanded(path@, references(path@), values_view(values@)),
{
    let found = env_var_references(path);
    let mut out = String::from_str(path);
    let mut k: usize = 0;
    assert(found@.take(0) =~= Seq::<EnvReference>::empty());
    while k < found.len()
        invariant
            found@ == references(path@),
            forall|j: int|
                0 <= j < found@.len() ==> (#[trigger] found@[j]).start + 7 <= found@[j].end
                    <= path@.len(),
            k <= found@.len(),
            out@ == expanded(path@, found@.take(k as int), values_view(values@)),
        decreases found@.len() - k,
    {
        let reference = found[k];
        proof {
            let next = found@.take(k + 1);
            assert(next.drop_last() =~= found@.take(k as int));
            assert(next.last() == reference);
        }
        if k < values.len() {
            match &values[k] {
                Some(value) => {
                    let literal = path.substring_char(reference.start, reference.end);
                    out = replace(out.as_str(), literal, value.as_str());
                },
                None => {},
            }
        }
        k = k + 1;
    }
    assert(found@.take(found@.len() as int) =~= found@);
    out
}

} // verus!
