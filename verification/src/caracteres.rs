//! Character classification used by the lexer. The Unicode predicates of std
//! are reached through trusted wrappers; the ASCII subset of each predicate is
//! pinned down exactly, which is all the token grammar itself relies on.

use vstd::prelude::*;

verus! {

/// What `char::is_whitespace` returns for a character.
pub uninterp spec fn eh_espaco_unicode(c: char) -> bool;

/// What `char::is_alphanumeric` returns for a character.
pub uninterp spec fn eh_alfanumerico_unicode(c: char) -> bool;

/// What `char::is_alphabetic` returns for a character.
pub uninterp spec fn eh_alfabetico_unicode(c: char) -> bool;

/// A decimal digit.
pub open spec fn eh_digito(c: char) -> bool {
    48 <= c as u32 <= 57
}

/// A character that may continue an identifier: a letter, a digit or an
/// underscore.
pub open spec fn eh_char_identificador(c: char) -> bool {
    eh_alfanumerico_unicode(c) || c == '_'
}

/// A character that may begin an identifier: a letter or an underscore.
pub open spec fn eh_inicio_identificador(c: char) -> bool {
    eh_alfabetico_unicode(c) || c == '_'
}

/// Relies on char::is_whitespace: true exactly for the characters with the
/// Unicode White_Space property. In the ASCII range those are space,
/// horizontal tab, line feed, vertical tab, form feed and carriage return.
#[verifier::external_body]
pub(crate) fn char_eh_espaco(c: char) -> (r: bool)
    ensures
        r == eh_espaco_unicode(c),
        (c as u32) < 128 ==> r == (c == ' ' || c == '\t' || c == '\n' || c == '\u{000B}' || c
            == '\u{000C}' || c == '\r'),
{
    c.is_whitespace()
}

/// Relies on char::is_alphanumeric: true exactly for the characters in the
/// Unicode categories Alphabetic, Nd, Nl and No. In the ASCII range those are
/// the letters and the decimal digits.
#[verifier::external_body]
pub(crate) fn char_eh_alfanumerico(c: char) -> (r: bool)
    ensures
        r == eh_alfanumerico_unicode(c),
        (c as u32) < 128 ==> r == ((97 <= c as u32 && c as u32 <= 122) || (65 <= c as u32 && c as u32
            <= 90) || (48 <= c as u32 && c as u32 <= 57)),
{
    c.is_alphanumeric()
}

/// Relies on char::is_alphabetic: true exactly for the characters with the
/// Unicode Alphabetic property. In the ASCII range those are the letters.
/// Every Alphabetic character is alphanumeric, since char::is_alphanumeric is
/// documented as true for the Alphabetic characters and the numeric ones.
#[verifier::external_body]
pub(crate) fn char_eh_alfabetico(c: char) -> (r: bool)
    ensures
        r == eh_alfabetico_unicode(c),
        r ==> eh_alfanumerico_unicode(c),
        (c as u32) < 128 ==> r == ((97 <= c as u32 && c as u32 <= 122) || (65 <= c as u32 && c as u32
            <= 90)),
{
    c.is_alphabetic()
}

/// A decimal digit, decided without the Unicode tables.
pub(crate) fn char_eh_digito(c: char) -> (r: bool)
    ensures
        r == eh_digito(c),
{
    let u = c as u32;
    48 <= u && u <= 57
}

/// Relies on String::push: appends the given character to the end of the
/// string.
#[verifier::external_body]
pub(crate) fn anexar_char(s: &mut String, c: char)
    ensures
        final(s)@ == old(s)@.push(c),
{
    s.push(c);
}

/// Whether a string holds exactly the given text.
pub(crate) fn texto_igual(s: &String, t: &str) -> (b: bool)
    ensures
        b == (s@ == t@),
{
    *s == t.to_owned()
}

} // verus!
