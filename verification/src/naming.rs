//! Naming conventions that a record type applies to all of its field names.
//!
//! A convention is a pure transform on identifier text. Its meaning is given by
//! [`RenameAll::renamed`] over sequences of characters; [`RenameAll::rename`]
//! computes it on strings.

use vstd::prelude::*;
use vstd::string::*;

verus! {

/// `String::push` of std appends the character to the end of the string.
pub assume_specification[ String::push ](s: &mut String, c: char)
    ensures
        final(s)@ == old(s)@.push(c),
;

/// Equality of two string slices (`PartialEq::eq` of std on `str`) is equality
/// of their characters.
#[verifier::external_body]
pub(crate) fn str_eq(a: &str, b: &str) -> (r: bool)
    ensures
        r == (a@ == b@),
{
    a == b
}

/// The ASCII lower-case form of a character: `A`..`Z` become `a`..`z`, every
/// other character stays as it is.
pub open spec fn ascii_lower(c: char) -> char {
    if 'A' <= c && c <= 'Z' {
        ((c as u8) + 32) as char
    } else {
        c
    }
}

/// The ASCII upper-case form of a character: `a`..`z` become `A`..`Z`, every
/// other character stays as it is.
pub open spec fn ascii_upper(c: char) -> char {
    if 'a' <= c && c <= 'z' {
        ((c as u8) - 32) as char
    } else {
        c
    }
}

/// Every character in its ASCII lower-case form.
pub open spec fn lower_case(value: Seq<char>) -> Seq<char> {
    value.map_values(|c: char| ascii_lower(c))
}

/// Every character in its ASCII upper-case form.
pub open spec fn upper_case(value: Seq<char>) -> Seq<char> {
    value.map_values(|c: char| ascii_upper(c))
}

/// The text with every `_` and `-` taken out.
pub open spec fn without_separators(value: Seq<char>) -> Seq<char> {
    value.filter(|c: char| c != '_' && c != '-')
}

/// The text with every occurrence of `from` replaced by `to`.
pub open spec fn with_separator(value: Seq<char>, from: char, to: char) -> Seq<char> {
    value.map_values(
        |c: char|
            if c == from {
                to
            } else {
                c
            },
    )
}

/// The text in `PascalCase`: underscores are dropped, the first character and
/// every character that follows an underscore is upper-cased, all others are
/// lower-cased.
pub open spec fn pascal_case(value: Seq<char>) -> Seq<char>
    decreases value.len(),
{
    if value.len() == 0 {
        value
    } else {
        let before = value.drop_last();
        let c = ascii_lower(value.last());
        if c == '_' {
            pascal_case(before)
        } else if before.len() == 0 || before.last() == '_' {
            pascal_case(before).push(ascii_upper(c))
        } else {
            pascal_case(before).push(c)
        }
    }
}

/// The text with its first character, if there is one, lower-cased.
pub open spec fn lower_first(value: Seq<char>) -> Seq<char> {
    Seq::new(
        value.len(),
        |i: int|
            if i == 0 {
                ascii_lower(value[i])
            } else {
                value[i]
            },
    )
}

/// The name under which a convention is selected, if `name` is one.
pub open spec fn convention_named(name: Seq<char>) -> Option<RenameAll> {
    if name == "lowercase"@ {
        Some(RenameAll::Lower)
    } else if name == "UPPERCASE"@ {
        Some(RenameAll::Upper)
    } else if name == "PascalCase"@ {
        Some(RenameAll::Pascal)
    } else if name == "camelCase"@ {
        Some(RenameAll::Camel)
    } else if name == "snake_case"@ {
        Some(RenameAll::Snake)
    } else if name == "SCREAMING_SNAKE_CASE"@ {
        Some(RenameAll::ScreamingSnake)
    } else if name == "kebab-case"@ {
        Some(RenameAll::Kebab)
    } else if name == "SCREAMING-KEBAB-CASE"@ {
        Some(RenameAll::ScreamingKebab)
    } else {
        None
    }
}

/// What an error about the convention name `invalid_value` says.
pub open spec fn invalid_value_message(invalid_value: Seq<char>) -> Seq<char> {
    "Invalid value `"@ + invalid_value
        + "`. Available options are: `lowercase`, `UPPERCASE`, `PascalCase`, 'camelCase', `snake_case`, `SCREAMING_SNAKE_CASE`, `kebab-case`, `SCREAMING-KEBAB-CASE`"@
}

/// A convention for the names of all fields of a record type.
#[derive(Clone, Copy, Debug, PartialEq, Eq, Structural)]
pub enum RenameAll {
    Lower,
    Upper,
    Pascal,
    Camel,
    Snake,
    ScreamingSnake,
    Kebab,
    ScreamingKebab,
}

/// The convention name that was asked for and is none of the known ones.
#[derive(Clone, Copy, Debug, PartialEq, Eq)]
pub struct RenameAllError<'a> {
    pub invalid_value: &'a str,
}

fn to_ascii_lower(c: char) -> (r: char)
    ensures
        r == ascii_lower(c),
{
    if 'A' <= c && c <= 'Z' {
        ((c as u8) + 32) as char
    } else {
        c
    }
}

fn to_ascii_upper(c: char) -> (r: char)
    ensures
        r == ascii_upper(c),
{
    if 'a' <= c && c <= 'z' {
        ((c as u8) - 32) as char
    } else {
        c
    }
}

fn to_lower_case(value: &str) -> (r: String)
    ensures
        r@ == lower_case(value@),
{
    let mut out = String::new();
    for c in it: value.chars()
        invariant
            it.seq() == value@,
            out@ == lower_case(value@.take(it.index())),
    {
        proof {
            let i: int = it.index();
            assert(value@.take(i + 1) =~= value@.take(i).push(c));
            assert(lower_case(value@.take(i + 1)) =~= lower_case(value@.take(i)).push(
                ascii_lower(c),
            ));
        }
        out.push(to_ascii_lower(c));
    }
    assert(value@.take(value@.len() as int) =~= value@);
    out
}

fn to_upper_case(value: &str) -> (r: String)
    ensures
        r@ == upper_case(value@),
{
    let mut out = String::new();
    for c in it: value.chars()
        invariant
            it.seq() == value@,
            out@ == upper_case(value@.take(it.index())),
    {
        proof {
            let i: int = it.index();
            assert(value@.take(i + 1) =~= value@.take(i).push(c));
            assert(upper_case(value@.take(i + 1)) =~= upper_case(value@.take(i)).push(
                ascii_upper(c),
            ));
        }
        out.push(to_ascii_upper(c));
    }
    assert(value@.take(value@.len() as int) =~= value@);
    out
}

fn remove_separators(value: &str) -> (r: String)
    ensures
        r@ == without_separators(value@),
{
    let mut out = String::new();
    for c in it: value.chars()
        invariant
            it.seq() == value@,
            out@ == without_separators(value@.take(it.index())),
    {
        proof {
            let i: int = it.index();
            assert(value@.take(i + 1) =~= value@.take(i).push(c));
            value@.take(i).lemma_filter_push(c, |c: char| c != '_' && c != '-');
        }
        if c != '_' && c != '-' {
            out.push(c);
        }
    }
    assert(value@.take(value@.len() as int) =~= value@);
    out
}

fn replace_separator(value: &str, from: char, to: char) -> (r: String)
    ensures
        r@ == with_separator(value@, from, to),
{
    let mut out = String::new();
    for c in it: value.chars()
        invariant
            it.seq() == value@,
            out@ == with_separator(value@.take(it.index()), from, to),
    {
        proof {
            let i: int = it.index();
            assert(value@.take(i + 1) =~= value@.take(i).push(c));
            assert(with_separator(value@.take(i + 1), from, to) =~= with_separator(
                value@.take(i),
                from,
                to,
            ).push(
                if c == from {
                    to
                } else {
                    c
                },
            ));
        }
        if c == from {
            out.push(to);
        } else {
            out.push(c);
        }
    }
    assert(value@.take(value@.len() as int) =~= value@);
    out
}

fn to_pascal_case(value: &str) -> (r: String)
    ensures
        r@ == pascal_case(value@),
{
    let mut out = String::new();
    let mut capitalize = true;
    for c in it: value.chars()
        invariant
            it.seq() == value@,
            out@ == pascal_case(value@.take(it.index())),
            capitalize == (it.index() == 0 || value@[it.index() - 1] == '_'),
    {
        proof {
            let i: int = it.index();
            assert(value@.take(i + 1).drop_last() =~= value@.take(i));
        }
        let lower = to_ascii_lower(c);
        if lower == '_' {
            capitalize = true;
        } else if capitalize {
            out.push(to_ascii_upper(lower));
            capitalize = false;
        } else {
            out.push(lower);
        }
    }
    assert(value@.take(value@.len() as int) =~= value@);
    out
}

fn to_lower_first(value: &str) -> (r: String)
    ensures
        r@ == lower_first(value@),
{
    let mut out = String::new();
    let mut first = true;
    for c in it: value.chars()
        invariant
            it.seq() == value@,
            out@ == lower_first(value@.take(it.index())),
            first == (it.index() == 0),
    {
        proof {
            let i: int = it.index();
            assert(lower_first(value@.take(i + 1)) =~= lower_first(value@.take(i)).push(
                if i == 0 {
                    ascii_lower(c)
                } else {
                    c
                },
            ));
        }
        if first {
            out.push(to_ascii_lower(c));
            first = false;
        } else {
            out.push(c);
        }
    }
    assert(value@.take(value@.len() as int) =~= value@);
    out
}

impl RenameAll {
    /// The field name `value` under this convention.
    pub open spec fn renamed(self, value: Seq<char>) -> Seq<char> {
        match self {
            RenameAll::Lower => without_separators(lower_case(value)),
            RenameAll::Upper => without_separators(upper_case(value)),
            RenameAll::Pascal => pascal_case(value),
            RenameAll::Camel => lower_first(pascal_case(value)),
            RenameAll::Snake => with_separator(lower_case(value), '-', '_'),
            RenameAll::ScreamingSnake => with_separator(upper_case(value), '-', '_'),
            RenameAll::Kebab => with_separator(lower_case(value), '_', '-'),
            RenameAll::ScreamingKebab => with_separator(upper_case(value), '_', '-'),
        }
    }

    /// Applies the convention to a field name.
    pub fn rename(&self, value: &str) -> (r: String)
        ensures
            r@ == self.renamed(value@),
    {
        match self {
            RenameAll::Lower => remove_separators(to_lower_case(value).as_str()),
            RenameAll::Upper => remove_separators(to_upper_case(value).as_str()),
            RenameAll::Pascal => to_pascal_case(value),
            RenameAll::Camel => to_lower_first(to_pascal_case(value).as_str()),
            RenameAll::Snake => replace_separator(to_lower_case(value).as_str(), '-', '_'),
            RenameAll::ScreamingSnake => replace_separator(
                to_upper_case(value).as_str(),
                '-',
                '_',
            ),
            RenameAll::Kebab => replace_separator(to_lower_case(value).as_str(), '_', '-'),
            RenameAll::ScreamingKebab => replace_separator(
                to_upper_case(value).as_str(),
                '_',
                '-',
            ),
        }
    }

    /// The convention that `value` names, or an error that holds `value` when
    /// it names none.
    pub fn try_from<'a>(value: &'a str) -> (r: Result<RenameAll, RenameAllError<'a>>)
        ensures
            match r {
                Ok(convention) => convention_named(value@) == Some(convention),
                Err(e) => convention_named(value@) is None && e.invalid_value@ == value@,
            },
    {
        if str_eq(value, "lowercase") {
            Ok(RenameAll::Lower)
        } else if str_eq(value, "UPPERCASE") {
            Ok(RenameAll::Upper)
        } else if str_eq(value, "PascalCase") {
            Ok(RenameAll::Pascal)
        } else if str_eq(value, "camelCase") {
            Ok(RenameAll::Camel)
        } else if str_eq(value, "snake_case") {
            Ok(RenameAll::Snake)
        } else if str_eq(value, "SCREAMING_SNAKE_CASE") {
            Ok(RenameAll::ScreamingSnake)
        } else if str_eq(value, "kebab-case") {
            Ok(RenameAll::Kebab)
        } else if str_eq(value, "SCREAMING-KEBAB-CASE") {
            Ok(RenameAll::ScreamingKebab)
        } else {
            Err(RenameAllError { invalid_value: value })
        }
    }
}

impl<'a> RenameAllError<'a> {
    /// The message of the error: the rejected value and the names that are
    /// accepted.
    pub fn to_string(&self) -> (r: String)
        ensures
            r@ == invalid_value_message(self.invalid_value@),
    {
        let mut message = String::from_str("Invalid value `");
        message.append(self.invalid_value);
        message.append(
            "`. Available options are: `lowercase`, `UPPERCASE`, `PascalCase`, 'camelCase', `snake_case`, `SCREAMING_SNAKE_CASE`, `kebab-case`, `SCREAMING-KEBAB-CASE`",
        );
        message
    }
}

} // verus!
