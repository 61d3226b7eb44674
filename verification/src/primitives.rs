//! The trusted boundary to the outside inflection primitives: the
//! `inflector` crate's word-boundary case conversions, pluralization and
//! singularization, and std's Unicode case mapping. Each wrapper's
//! contract states what the outside source shows; a result with no short
//! statement is given a name, and the names are related to one another
//! exactly where the outside source shows the relation (the screaming,
//! kebab, train, table, foreign-key and namespace forms are all stated
//! over the snake, title and class forms).

use vstd::prelude::*;

use crate::split::{has_sep, split_segs};

verus! {

/// What `inflector`'s `to_camel_case` returns: the words of the string
/// merged into lowerCamelCase.
pub uninterp spec fn camel_of(s: Seq<char>) -> Seq<char>;

/// What `inflector`'s `to_pascal_case` returns: the words of the string
/// merged into UpperCamelCase.
pub uninterp spec fn pascal_of(s: Seq<char>) -> Seq<char>;

/// What `inflector`'s `to_snake_case` returns: the words of the string
/// lowered and joined with underscores.
pub uninterp spec fn snake_of(s: Seq<char>) -> Seq<char>;

/// What `inflector`'s `to_title_case` returns: each word capitalized,
/// joined with spaces.
pub uninterp spec fn title_of(s: Seq<char>) -> Seq<char>;

/// What `inflector`'s `to_sentence_case` returns: the first word
/// capitalized, the rest lowered, joined with spaces.
pub uninterp spec fn sentence_of(s: Seq<char>) -> Seq<char>;

/// What `inflector`'s `to_class_case` returns: the singular UpperCamelCase
/// class name.
pub uninterp spec fn class_of(s: Seq<char>) -> Seq<char>;

/// What `inflector`'s `to_plural` returns: the English plural by the
/// crate's rule table.
pub uninterp spec fn plural_of(s: Seq<char>) -> Seq<char>;

/// What `inflector`'s `to_singular` returns: the English singular by the
/// crate's rule table.
pub uninterp spec fn singular_of(s: Seq<char>) -> Seq<char>;

/// What std's `str::to_uppercase` returns: the Unicode uppercase mapping
/// of the string.
pub uninterp spec fn upper_of(s: Seq<char>) -> Seq<char>;

/// What std's `str::to_lowercase` returns: the Unicode lowercase mapping
/// of the string.
pub uninterp spec fn lower_of(s: Seq<char>) -> Seq<char>;

/// The ASCII uppercase mapping of one character: 'a' through 'z' go to
/// 'A' through 'Z', every other character is unchanged.
pub open spec fn ascii_upper_char(c: char) -> char {
    if 97 <= c as u32 && c as u32 <= 122 {
        ((c as u32) - 32) as char
    } else {
        c
    }
}

/// Every character of the string mapped through the ASCII uppercase map.
pub open spec fn seq_ascii_upper(s: Seq<char>) -> Seq<char> {
    s.map_values(|c: char| ascii_upper_char(c))
}

/// Every occurrence of one character replaced by another.
pub open spec fn replace_char(s: Seq<char>, from: char, to: char) -> Seq<char> {
    s.map_values(|c: char| if c == from { to } else { c })
}

/// The string ends in "_id".
pub open spec fn ends_in_id(s: Seq<char>) -> bool {
    s.len() >= 3 && s[s.len() - 3] == '_' && s[s.len() - 2] == 'i' && s[s.len() - 1] == 'd'
}

/// The snake_case form with "_id" appended, unless it already ends so.
pub open spec fn foreign_key_of(s: Seq<char>) -> Seq<char> {
    let t = snake_of(s);
    if ends_in_id(t) {
        t
    } else {
        t + seq!['_', 'i', 'd']
    }
}

/// The foreign key of the last namespace segment.
pub open spec fn foreign_key_full_of(s: Seq<char>) -> Seq<char> {
    if has_sep(s) {
        foreign_key_of(split_segs(s).last())
    } else {
        foreign_key_of(s)
    }
}

/// The class-cased last namespace segment; without a separator the string
/// is unchanged.
pub open spec fn demodulize_of(s: Seq<char>) -> Seq<char> {
    if has_sep(s) {
        class_of(split_segs(s).last())
    } else {
        s
    }
}

/// The class-cased segment before the last one; without a separator the
/// result is empty.
pub open spec fn deconstantize_of(s: Seq<char>) -> Seq<char> {
    if has_sep(s) {
        class_of(split_segs(s)[split_segs(s).len() - 2])
    } else {
        Seq::<char>::empty()
    }
}

/// The index of the last underscore, or 0 when there is none.
pub open spec fn last_underscore_or_zero(s: Seq<char>) -> int
    decreases s.len(),
{
    if s.len() == 0 {
        0
    } else if s.last() == '_' {
        s.len() - 1
    } else {
        last_underscore_or_zero(s.drop_last())
    }
}

/// The snake_case form split at its last underscore, the part from the
/// underscore on pluralized.
pub open spec fn table_of(s: Seq<char>) -> Seq<char> {
    let t = snake_of(s);
    let k = last_underscore_or_zero(t);
    t.take(k) + plural_of(t.skip(k))
}

/// Relies on `inflector::cases::camelcase::to_camel_case`: the result is a
/// function of the characters alone, and an empty string stays empty.
#[verifier::external_body]
pub(crate) fn ext_camel_case(s: &str) -> (r: String)
    ensures
        r@ == camel_of(s@),
        s@.len() == 0 ==> r@.len() == 0,
{
    inflector::cases::camelcase::to_camel_case(s)
}

/// Relies on `inflector::cases::pascalcase::to_pascal_case`: the result is
/// a function of the characters alone, and an empty string stays empty.
#[verifier::external_body]
pub(crate) fn ext_pascal_case(s: &str) -> (r: String)
    ensures
        r@ == pascal_of(s@),
        s@.len() == 0 ==> r@.len() == 0,
{
    inflector::cases::pascalcase::to_pascal_case(s)
}

/// Relies on `inflector::cases::snakecase::to_snake_case`: the result is a
/// function of the characters alone, and an empty string stays empty.
#[verifier::external_body]
pub(crate) fn ext_snake_case(s: &str) -> (r: String)
    ensures
        r@ == snake_of(s@),
        s@.len() == 0 ==> r@.len() == 0,
{
    inflector::cases::snakecase::to_snake_case(s)
}

/// Relies on `inflector::cases::screamingsnakecase::to_screaming_snake_case`:
/// its source runs the one shared engine that `to_snake_case` runs, with the
/// same separator and upper in place of lower ASCII case, so the result is
/// the snake form mapped through the ASCII uppercase map.
#[verifier::external_body]
pub(crate) fn ext_screaming_snake_case(s: &str) -> (r: String)
    ensures
        r@ == seq_ascii_upper(snake_of(s@)),
        s@.len() == 0 ==> r@.len() == 0,
{
    inflector::cases::screamingsnakecase::to_screaming_snake_case(s)
}

/// Relies on `inflector::cases::kebabcase::to_kebab_case`: its source runs
/// the one shared engine that `to_snake_case` runs, with '-' in place of
/// '_' as the injected separator, and no other character of the output can
/// be an underscore, so the result is the snake form with underscores
/// replaced by hyphens.
#[verifier::external_body]
pub(crate) fn ext_kebab_case(s: &str) -> (r: String)
    ensures
        r@ == replace_char(snake_of(s@), '_', '-'),
        s@.len() == 0 ==> r@.len() == 0,
{
    inflector::cases::kebabcase::to_kebab_case(s)
}

/// Relies on `inflector::cases::traincase::to_train_case`: its source runs
/// the one shared engine that `to_title_case` runs, with '-' in place of
/// ' ' as the injected separator, and no other character of the output can
/// be a space, so the result is the title form with spaces replaced by
/// hyphens.
#[verifier::external_body]
pub(crate) fn ext_train_case(s: &str) -> (r: String)
    ensures
        r@ == replace_char(title_of(s@), ' ', '-'),
        s@.len() == 0 ==> r@.len() == 0,
{
    inflector::cases::traincase::to_train_case(s)
}

/// Relies on `inflector::cases::sentencecase::to_sentence_case`: the result
/// is a function of the characters alone, and an empty string stays empty.
#[verifier::external_body]
pub(crate) fn ext_sentence_case(s: &str) -> (r: String)
    ensures
        r@ == sentence_of(s@),
        s@.len() == 0 ==> r@.len() == 0,
{
    inflector::cases::sentencecase::to_sentence_case(s)
}

/// Relies on `inflector::cases::titlecase::to_title_case`: the result is a
/// function of the characters alone, and an empty string stays empty.
#[verifier::external_body]
pub(crate) fn ext_title_case(s: &str) -> (r: String)
    ensures
        r@ == title_of(s@),
        s@.len() == 0 ==> r@.len() == 0,
{
    inflector::cases::titlecase::to_title_case(s)
}

/// Relies on `inflector::cases::classcase::to_class_case`: the result is a
/// function of the characters alone, and an empty string stays empty (the
/// camel engine leaves it empty and the singular of the empty string is
/// empty).
#[verifier::external_body]
pub(crate) fn ext_class_case(s: &str) -> (r: String)
    ensures
        r@ == class_of(s@),
        s@.len() == 0 ==> r@.len() == 0,
{
    inflector::cases::classcase::to_class_case(s)
}

/// Relies on `inflector::cases::tablecase::to_table_case`: its source snake
/// cases the string, splits at the last underscore (at 0 when there is
/// none; the split index is a character position, so byte and character
/// counts agree), and pluralizes the tail.
#[verifier::external_body]
pub(crate) fn ext_table_case(s: &str) -> (r: String)
    ensures
        r@ == table_of(s@),
{
    inflector::cases::tablecase::to_table_case(s)
}

/// Relies on `inflector::string::pluralize::to_plural`: the result is a
/// function of the characters alone.
#[verifier::external_body]
pub(crate) fn ext_pluralize(s: &str) -> (r: String)
    ensures
        r@ == plural_of(s@),
{
    inflector::string::pluralize::to_plural(s)
}

/// Relies on `inflector::string::singularize::to_singular`: the result is
/// a function of the characters alone, and an empty string stays empty (no
/// rule of the table matches it).
#[verifier::external_body]
pub(crate) fn ext_singularize(s: &str) -> (r: String)
    ensures
        r@ == singular_of(s@),
        s@.len() == 0 ==> r@.len() == 0,
{
    inflector::string::singularize::to_singular(s)
}

/// Relies on `inflector::suffix::foreignkey::to_foreign_key`: its source
/// snake cases the last "::"-separated segment and appends "_id" unless
/// the snake form already ends so.
#[verifier::external_body]
pub(crate) fn ext_to_foreign_key(s: &str) -> (r: String)
    ensures
        r@ == foreign_key_full_of(s@),
{
    inflector::suffix::foreignkey::to_foreign_key(s)
}

/// Relies on `inflector::string::demodulize::demodulize`: its source class
/// cases the last "::"-separated segment, and hands a string without the
/// separator back unchanged.
#[verifier::external_body]
pub(crate) fn ext_demodulize(s: &str) -> (r: String)
    ensures
        r@ == demodulize_of(s@),
{
    inflector::string::demodulize::demodulize(s)
}

/// Relies on `inflector::string::deconstantize::deconstantize`: its source
/// class cases the segment before the last "::"-separated one, and hands
/// the empty string back when there is no separator.
#[verifier::external_body]
pub(crate) fn ext_deconstantize(s: &str) -> (r: String)
    ensures
        r@ == deconstantize_of(s@),
{
    inflector::string::deconstantize::deconstantize(s)
}

/// Relies on std's `str::to_uppercase`: the result depends on the
/// characters alone, and an empty string stays empty.
#[verifier::external_body]
pub(crate) fn ext_upper_case(s: &str) -> (r: String)
    ensures
        r@ == upper_of(s@),
        s@.len() == 0 ==> r@.len() == 0,
{
    s.to_uppercase()
}

/// Relies on std's `str::to_lowercase`: the result depends on the
/// characters alone, and an empty string stays empty.
#[verifier::external_body]
pub(crate) fn ext_lower_case(s: &str) -> (r: String)
    ensures
        r@ == lower_of(s@),
        s@.len() == 0 ==> r@.len() == 0,
{
    s.to_lowercase()
}

} // verus!
