//! Case conversion and identifier sanitizing.
use crate::text::{push_char, str_eq};
use convert_case::{Case, Casing};
use vstd::prelude::*;

verus! {

/// What `char::is_alphabetic` answers for a character.
pub uninterp spec fn is_alphabetic_char(c: char) -> bool;

/// What `char::is_alphanumeric` answers for a character.
pub uninterp spec fn is_alphanumeric_char(c: char) -> bool;

/// What `str::to_lowercase` returns for a string.
pub uninterp spec fn lowercase_of(s: Seq<char>) -> Seq<char>;

/// What `str::to_uppercase` returns for a string.
pub uninterp spec fn uppercase_of(s: Seq<char>) -> Seq<char>;

/// What convert_case returns for a string converted to camelCase.
pub uninterp spec fn camel_case_of(s: Seq<char>) -> Seq<char>;

/// What convert_case returns for a string converted to PascalCase.
pub uninterp spec fn pascal_case_of(s: Seq<char>) -> Seq<char>;

/// What convert_case returns for a string converted to snake_case.
pub uninterp spec fn snake_case_of(s: Seq<char>) -> Seq<char>;

/// What convert_case returns for a string converted to kebab-case.
pub uninterp spec fn kebab_case_of(s: Seq<char>) -> Seq<char>;

/// What convert_case returns for a string converted to Title Case.
pub uninterp spec fn title_case_of(s: Seq<char>) -> Seq<char>;

/// Relies on `char::is_alphabetic`: a property of the character alone.
#[verifier::external_body]
fn char_is_alphabetic(c: char) -> (r: bool)
    ensures
        r == is_alphabetic_char(c),
{
    c.is_alphabetic()
}

/// Relies on `char::is_alphanumeric`: a property of the character alone.
#[verifier::external_body]
fn char_is_alphanumeric(c: char) -> (r: bool)
    ensures
        r == is_alphanumeric_char(c),
{
    c.is_alphanumeric()
}

/// Relies on `str::to_lowercase`: the result depends on the characters alone.
#[verifier::external_body]
pub(crate) fn to_lowercase(s: &str) -> (r: String)
    ensures
        r@ == lowercase_of(s@),
{
    s.to_lowercase()
}

/// Relies on `str::to_uppercase`: the result depends on the characters alone.
#[verifier::external_body]
pub(crate) fn to_uppercase(s: &str) -> (r: String)
    ensures
        r@ == uppercase_of(s@),
{
    s.to_uppercase()
}

/// Relies on convert_case's `Casing::to_case` with `Case::Camel`.
#[verifier::external_body]
fn to_camel_case(s: &str) -> (r: String)
    ensures
        r@ == camel_case_of(s@),
{
    s.to_case(Case::Camel)
}

/// Relies on convert_case's `Casing::to_case` with `Case::Pascal`.
#[verifier::external_body]
fn to_pascal_case(s: &str) -> (r: String)
    ensures
        r@ == pascal_case_of(s@),
{
    s.to_case(Case::Pascal)
}

/// Relies on convert_case's `Casing::to_case` with `Case::Snake`.
#[verifier::external_body]
fn to_snake_case(s: &str) -> (r: String)
    ensures
        r@ == snake_case_of(s@),
{
    s.to_case(Case::Snake)
}

/// Relies on convert_case's `Casing::to_case` with `Case::Kebab`.
#[verifier::external_body]
fn to_kebab_case(s: &str) -> (r: String)
    ensures
        r@ == kebab_case_of(s@),
{
    s.to_case(Case::Kebab)
}

/// Relies on convert_case's `Casing::to_case` with `Case::Title`.
#[verifier::external_body]
fn to_title_case(s: &str) -> (r: String)
    ensures
        r@ == title_case_of(s@),
{
    s.to_case(Case::Title)
}

/// The conversion that `convert_to_case` applies for an already lower-cased case name.
pub open spec fn case_applied(input: Seq<char>, case_lower: Seq<char>) -> Seq<char> {
    if case_lower == "camel"@ || case_lower == "camelcase"@ {
        camel_case_of(input)
    } else if case_lower == "pascal"@ || case_lower == "pascalcase"@ {
        pascal_case_of(input)
    } else if case_lower == "snake"@ || case_lower == "snake_case"@ {
        snake_case_of(input)
    } else if case_lower == "kebab"@ || case_lower == "kebab-case"@ {
        kebab_case_of(input)
    } else if case_lower == "title"@ || case_lower == "title_case"@ {
        title_case_of(input)
    } else if case_lower == "lower"@ || case_lower == "lowercase"@ {
        lowercase_of(input)
    } else if case_lower == "upper"@ || case_lower == "uppercase"@ {
        uppercase_of(input)
    } else {
        input
    }
}

/// `input` converted to the case that `case` names; the case name is matched
/// without regard to letter case, and an unknown name leaves the input as it is.
pub open spec fn converted_case(input: Seq<char>, case: Seq<char>) -> Seq<char> {
    case_applied(input, lowercase_of(case))
}

/// Converts `input` to the case named by `case` (camel, pascal, snake, kebab,
/// title, lower or upper); an unknown case name returns the input unchanged.
pub fn convert_to_case(input: &str, case: &str) -> (r: String)
    ensures
        r@ == converted_case(input@, case@),
{
    let lower = to_lowercase(case);
    let c = lower.as_str();
    if str_eq(c, "camel") || str_eq(c, "camelcase") {
        convert_to_case_kind(input, CaseKind::Camel)
    } else if str_eq(c, "pascal") || str_eq(c, "pascalcase") {
        convert_to_case_kind(input, CaseKind::Pascal)
    } else if str_eq(c, "snake") || str_eq(c, "snake_case") {
        convert_to_case_kind(input, CaseKind::Snake)
    } else if str_eq(c, "kebab") || str_eq(c, "kebab-case") {
        convert_to_case_kind(input, CaseKind::Kebab)
    } else if str_eq(c, "title") || str_eq(c, "title_case") {
        convert_to_case_kind(input, CaseKind::Title)
    } else if str_eq(c, "lower") || str_eq(c, "lowercase") {
        convert_to_case_kind(input, CaseKind::Lower)
    } else if str_eq(c, "upper") || str_eq(c, "uppercase") {
        convert_to_case_kind(input, CaseKind::Upper)
    } else {
        String::from_str(input)
    }
}

/// A case that names are converted to.
#[derive(Debug, Clone, Copy, PartialEq, Eq, Structural)]
pub enum CaseKind {
    Camel,
    Pascal,
    Snake,
    Kebab,
    Title,
    Lower,
    Upper,
}

/// `input` converted to `kind`.
pub open spec fn case_of_kind(input: Seq<char>, kind: CaseKind) -> Seq<char> {
    match kind {
        CaseKind::Camel => camel_case_of(input),
        CaseKind::Pascal => pascal_case_of(input),
        CaseKind::Snake => snake_case_of(input),
        CaseKind::Kebab => kebab_case_of(input),
        CaseKind::Title => title_case_of(input),
        CaseKind::Lower => lowercase_of(input),
        CaseKind::Upper => uppercase_of(input),
    }
}

/// Converts `input` to `kind`.
pub fn convert_to_case_kind(input: &str, kind: CaseKind) -> (r: String)
    ensures
        r@ == case_of_kind(input@, kind),
{
    match kind {
        CaseKind::Camel => to_camel_case(input),
        CaseKind::Pascal => to_pascal_case(input),
        CaseKind::Snake => to_snake_case(input),
        CaseKind::Kebab => to_kebab_case(input),
        CaseKind::Title => to_title_case(input),
        CaseKind::Lower => to_lowercase(input),
        CaseKind::Upper => to_uppercase(input),
    }
}

/// The character that stands for `c` in an identifier.
pub open spec fn ident_char(c: char) -> char {
    if is_alphanumeric_char(c) || c == '_' {
        c
    } else {
        '_'
    }
}

/// Whether an identifier beginning with `c` needs a leading underscore.
pub open spec fn needs_leading_underscore(c: char) -> bool {
    !is_alphabetic_char(c) && c != '_'
}

/// `name` made into an identifier: an underscore goes in front when the first
/// character is neither a letter nor an underscore, and every character that
/// is neither alphanumeric nor an underscore becomes an underscore.
pub open spec fn sanitized(name: Seq<char>) -> Seq<char> {
    let head = if name.len() > 0 && needs_leading_underscore(name[0]) {
        seq!['_']
    } else {
        Seq::<char>::empty()
    };
    head + name.map_values(|c: char| ident_char(c))
}

/// Makes `name` a valid identifier (see `sanitized`).
pub fn sanitize_identifier(name: &str) -> (r: String)
    ensures
        r@ == sanitized(name@),
{
    let chars = crate::text::chars_of(name);
    let mut result = String::new();
    if chars.len() > 0 && !char_is_alphabetic(chars[0]) && chars[0] != '_' {
        push_char(&mut result, '_');
    }
    let ghost head = result@;
    let mut i: usize = 0;
    while i < chars.len()
        invariant
            chars@ == name@,
            head == (if name@.len() > 0 && needs_leading_underscore(name@[0]) {
                seq!['_']
            } else {
                Seq::<char>::empty()
            }),
            i <= chars@.len(),
            result@ == head + chars@.subrange(0, i as int).map_values(|c: char| ident_char(c)),
        decreases chars@.len() - i,
    {
        let c = chars[i];
        let d = if char_is_alphanumeric(c) || c == '_' {
            c
        } else {
            '_'
        };
        push_char(&mut result, d);
        assert(chars@.subrange(0, i + 1).map_values(|c: char| ident_char(c)) =~= chars@.subrange(
            0,
            i as int,
        ).map_values(|c: char| ident_char(c)).push(d));
        i += 1;
    }
    assert(chars@.subrange(0, i as int) =~= chars@);
    result
}

} // verus!
