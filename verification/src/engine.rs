//! The inflection engine: the catalog of transformations, the canonical
//! order in which active flags are applied, and the dispatch that folds a
//! string through every active transformation. Only set membership
//! matters to a caller; the order of execution is always the canonical
//! table's, so chaining is deterministic whatever order a request names
//! its flags in.

use vstd::prelude::*;

use crate::flags::{spec_flag_set, Flag, FlagSet};
use crate::ordinal;
use crate::ordinal::{spec_deordinalize, spec_ordinalize};
use crate::primitives::{
    camel_of, class_of, deconstantize_of, demodulize_of, ext_camel_case, ext_class_case,
    ext_deconstantize, ext_demodulize, ext_kebab_case, ext_lower_case, ext_pascal_case,
    ext_pluralize, ext_screaming_snake_case, ext_sentence_case, ext_singularize, ext_snake_case,
    ext_table_case, ext_title_case, ext_to_foreign_key, ext_train_case, ext_upper_case,
    foreign_key_full_of, lower_of, pascal_of, plural_of, replace_char, sentence_of,
    seq_ascii_upper, singular_of, snake_of, table_of, title_of, upper_of,
};

verus! {

/// What one transformation of the catalog returns.
pub open spec fn spec_apply(f: Flag, s: Seq<char>) -> Seq<char> {
    match f {
        Flag::CamelCase => camel_of(s),
        Flag::PascalCase => pascal_of(s),
        Flag::SnakeCase => snake_of(s),
        Flag::ScreamingSnakeCase => seq_ascii_upper(snake_of(s)),
        Flag::KebabCase => replace_char(snake_of(s), '_', '-'),
        Flag::TrainCase => replace_char(title_of(s), ' ', '-'),
        Flag::SentenceCase => sentence_of(s),
        Flag::TitleCase => title_of(s),
        Flag::Ordinalize => spec_ordinalize(s),
        Flag::Deordinalize => spec_deordinalize(s),
        Flag::ToForeignKey => foreign_key_full_of(s),
        Flag::Demodulize => demodulize_of(s),
        Flag::Deconstantize => deconstantize_of(s),
        Flag::ClassCase => class_of(s),
        Flag::TableCase => table_of(s),
        Flag::Pluralize => plural_of(s),
        Flag::Singularize => singular_of(s),
        Flag::UpperCase => upper_of(s),
        Flag::LowerCase => lower_of(s),
    }
}

/// The canonical order of application. Every active flag is applied,
/// in exactly this order, each step consuming the previous step's output.
pub open spec fn canonical_order() -> Seq<Flag> {
    seq![
        Flag::CamelCase,
        Flag::PascalCase,
        Flag::SnakeCase,
        Flag::ScreamingSnakeCase,
        Flag::KebabCase,
        Flag::TrainCase,
        Flag::SentenceCase,
        Flag::TitleCase,
        Flag::Ordinalize,
        Flag::Deordinalize,
        Flag::ToForeignKey,
        Flag::Demodulize,
        Flag::Deconstantize,
        Flag::ClassCase,
        Flag::TableCase,
        Flag::Pluralize,
        Flag::Singularize,
        Flag::UpperCase,
        Flag::LowerCase,
    ]
}

/// The string folded through the given order: a flag active in the set
/// transforms the running value, an inactive one is skipped.
pub open spec fn apply_in_order(s: Seq<char>, order: Seq<Flag>, fs: FlagSet) -> Seq<char>
    decreases order.len(),
{
    if order.len() == 0 {
        s
    } else {
        let s1 = if fs.spec_has(order[0]) {
            spec_apply(order[0], s)
        } else {
            s
        };
        apply_in_order(s1, order.skip(1), fs)
    }
}

/// What `transform` returns: the input folded through the canonical order.
pub open spec fn spec_transform(s: Seq<char>, fs: FlagSet) -> Seq<char> {
    apply_in_order(s, canonical_order(), fs)
}

/// The flags whose transformations can grow an empty string: a foreign
/// key gains "_id", and pluralizing the empty word yields "s" (alone and
/// inside the table form).
pub open spec fn grows_empty(f: Flag) -> bool {
    f == Flag::ToForeignKey || f == Flag::TableCase || f == Flag::Pluralize
}

/// lowerCamelCase: the words merged, the first one lowered.
pub fn camel_case(s: &str) -> (r: String)
    ensures
        r@ == camel_of(s@),
        s@.len() == 0 ==> r@.len() == 0,
{
    ext_camel_case(s)
}

/// UpperCamelCase: the words merged, each capitalized.
pub fn pascal_case(s: &str) -> (r: String)
    ensures
        r@ == pascal_of(s@),
        s@.len() == 0 ==> r@.len() == 0,
{
    ext_pascal_case(s)
}

/// snake_case: the words lowered and joined with underscores.
pub fn snake_case(s: &str) -> (r: String)
    ensures
        r@ == snake_of(s@),
        s@.len() == 0 ==> r@.len() == 0,
{
    ext_snake_case(s)
}

/// SCREAMING_SNAKE_CASE: the snake form through the ASCII uppercase map.
pub fn screaming_snake_case(s: &str) -> (r: String)
    ensures
        r@ == seq_ascii_upper(snake_of(s@)),
        s@.len() == 0 ==> r@.len() == 0,
{
    ext_screaming_snake_case(s)
}

/// kebab-case: the snake form with hyphens for underscores.
pub fn kebab_case(s: &str) -> (r: String)
    ensures
        r@ == replace_char(snake_of(s@), '_', '-'),
        s@.len() == 0 ==> r@.len() == 0,
{
    ext_kebab_case(s)
}

/// Train-Case: the title form with hyphens for spaces.
pub fn train_case(s: &str) -> (r: String)
    ensures
        r@ == replace_char(title_of(s@), ' ', '-'),
        s@.len() == 0 ==> r@.len() == 0,
{
    ext_train_case(s)
}

/// Sentence case: the first word capitalized, the rest lowered, joined
/// with spaces.
pub fn sentence_case(s: &str) -> (r: String)
    ensures
        r@ == sentence_of(s@),
        s@.len() == 0 ==> r@.len() == 0,
{
    ext_sentence_case(s)
}

/// Title Case: every word capitalized, joined with spaces.
pub fn title_case(s: &str) -> (r: String)
    ensures
        r@ == title_of(s@),
        s@.len() == 0 ==> r@.len() == 0,
{
    ext_title_case(s)
}

/// The foreign key: the last namespace segment snake cased with "_id"
/// appended unless already there.
pub fn to_foreign_key(s: &str) -> (r: String)
    ensures
        r@ == foreign_key_full_of(s@),
{
    ext_to_foreign_key(s)
}

/// The class-cased segment after the last "::"; a string without the
/// separator is unchanged.
pub fn demodulize(s: &str) -> (r: String)
    ensures
        r@ == demodulize_of(s@),
{
    ext_demodulize(s)
}

/// The class-cased segment before the last "::"-separated one; without a
/// separator the result is empty.
pub fn deconstantize(s: &str) -> (r: String)
    ensures
        r@ == deconstantize_of(s@),
{
    ext_deconstantize(s)
}

/// ClassCase: the singular UpperCamelCase class name.
pub fn class_case(s: &str) -> (r: String)
    ensures
        r@ == class_of(s@),
        s@.len() == 0 ==> r@.len() == 0,
{
    ext_class_case(s)
}

/// table_case: the snake form with its last word pluralized.
pub fn table_case(s: &str) -> (r: String)
    ensures
        r@ == table_of(s@),
{
    ext_table_case(s)
}

/// The English plural, by the inflection rule table.
pub fn pluralize(s: &str) -> (r: String)
    ensures
        r@ == plural_of(s@),
{
    ext_pluralize(s)
}

/// The English singular, by the inflection rule table.
pub fn singularize(s: &str) -> (r: String)
    ensures
        r@ == singular_of(s@),
        s@.len() == 0 ==> r@.len() == 0,
{
    ext_singularize(s)
}

/// Every character uppercased, by the Unicode mapping.
pub fn upper_case(s: &str) -> (r: String)
    ensures
        r@ == upper_of(s@),
        s@.len() == 0 ==> r@.len() == 0,
{
    ext_upper_case(s)
}

/// Every character lowercased, by the Unicode mapping.
pub fn lower_case(s: &str) -> (r: String)
    ensures
        r@ == lower_of(s@),
        s@.len() == 0 ==> r@.len() == 0,
{
    ext_lower_case(s)
}

/// One transformation of the catalog applied to a string.
fn apply(f: Flag, s: &str) -> (r: String)
    ensures
        r@ == spec_apply(f, s@),
        s@.len() == 0 && !grows_empty(f) ==> r@.len() == 0,
{
    match f {
        Flag::CamelCase => camel_case(s),
        Flag::PascalCase => pascal_case(s),
        Flag::SnakeCase => snake_case(s),
        Flag::ScreamingSnakeCase => screaming_snake_case(s),
        Flag::KebabCase => kebab_case(s),
        Flag::TrainCase => train_case(s),
        Flag::SentenceCase => sentence_case(s),
        Flag::TitleCase => title_case(s),
        Flag::Ordinalize => ordinal::ordinalize(s),
        Flag::Deordinalize => ordinal::deordinalize(s),
        Flag::ToForeignKey => to_foreign_key(s),
        Flag::Demodulize => demodulize(s),
        Flag::Deconstantize => deconstantize(s),
        Flag::ClassCase => class_case(s),
        Flag::TableCase => table_case(s),
        Flag::Pluralize => pluralize(s),
        Flag::Singularize => singularize(s),
        Flag::UpperCase => upper_case(s),
        Flag::LowerCase => lower_case(s),
    }
}

/// Applies every flag active in the set, in the canonical order, each
/// transformation consuming the previous one's output. Empty input stays
/// empty unless a flag that appends to the empty word is active.
pub fn transform(input: &str, flags: &FlagSet) -> (r: String)
    ensures
        r@ == spec_transform(input@, *flags),
        input@.len() == 0 && !flags.to_foreign_key && !flags.table_case && !flags.pluralize
            ==> r@.len() == 0,
{
    let order: Vec<Flag> = vec![
        Flag::CamelCase,
        Flag::PascalCase,
        Flag::SnakeCase,
        Flag::ScreamingSnakeCase,
        Flag::KebabCase,
        Flag::TrainCase,
        Flag::SentenceCase,
        Flag::TitleCase,
        Flag::Ordinalize,
        Flag::Deordinalize,
        Flag::ToForeignKey,
        Flag::Demodulize,
        Flag::Deconstantize,
        Flag::ClassCase,
        Flag::TableCase,
        Flag::Pluralize,
        Flag::Singularize,
        Flag::UpperCase,
        Flag::LowerCase,
    ];
    proof {
        assert(order@ =~= canonical_order());
        assert(order@.skip(0) =~= order@);
    }
    let mut out: String = input.to_owned();
    let mut i: usize = 0;
    while i < order.len()
        invariant
            order@ == canonical_order(),
            i <= order.len(),
            spec_transform(input@, *flags) == apply_in_order(out@, order@.skip(i as int), *flags),
            input@.len() == 0 && !flags.to_foreign_key && !flags.table_case && !flags.pluralize
                ==> out@.len() == 0,
        decreases order.len() - i,
    {
        let f = order[i];
        proof {
            assert(order@.skip(i as int)[0] == f);
            assert(order@.skip(i as int).skip(1) =~= order@.skip(i as int + 1));
        }
        if flags.has(f) {
            out = apply(f, out.as_str());
        }
        i += 1;
    }
    out
}

/// The inflection helper: a stateless marker whose one operation is the
/// engine's `transform`.
#[derive(Clone, Copy)]
pub struct HandlebarsInflector;

impl HandlebarsInflector {
    /// Applies every flag active in the set to the input, in the
    /// canonical order.
    pub fn transform(&self, input: &str, flags: &FlagSet) -> (r: String)
        ensures
            r@ == spec_transform(input@, *flags),
    {
        transform(input, flags)
    }
}

/// The caller's request order is irrelevant: two requests naming the same
/// flags, in any orders and multiplicities, denote the same flag set, and
/// so the same output on every input.
#[verifier::rlimit(100)]
pub proof fn lemma_request_order_irrelevant(input: Seq<char>, r1: Seq<Flag>, r2: Seq<Flag>)
    requires
        forall|f: Flag| #[trigger] r1.contains(f) == r2.contains(f),
    ensures
        spec_flag_set(r1) == spec_flag_set(r2),
        spec_transform(input, spec_flag_set(r1)) == spec_transform(input, spec_flag_set(r2)),
{
    assert(r1.contains(Flag::CamelCase) == r2.contains(Flag::CamelCase));
    assert(r1.contains(Flag::PascalCase) == r2.contains(Flag::PascalCase));
    assert(r1.contains(Flag::SnakeCase) == r2.contains(Flag::SnakeCase));
    assert(r1.contains(Flag::ScreamingSnakeCase) == r2.contains(Flag::ScreamingSnakeCase));
    assert(r1.contains(Flag::KebabCase) == r2.contains(Flag::KebabCase));
    assert(r1.contains(Flag::TrainCase) == r2.contains(Flag::TrainCase));
    assert(r1.contains(Flag::SentenceCase) == r2.contains(Flag::SentenceCase));
    assert(r1.contains(Flag::TitleCase) == r2.contains(Flag::TitleCase));
    assert(r1.contains(Flag::Ordinalize) == r2.contains(Flag::Ordinalize));
    assert(r1.contains(Flag::Deordinalize) == r2.contains(Flag::Deordinalize));
    assert(r1.contains(Flag::ToForeignKey) == r2.contains(Flag::ToForeignKey));
    assert(r1.contains(Flag::Demodulize) == r2.contains(Flag::Demodulize));
    assert(r1.contains(Flag::Deconstantize) == r2.contains(Flag::Deconstantize));
    assert(r1.contains(Flag::ClassCase) == r2.contains(Flag::ClassCase));
    assert(r1.contains(Flag::TableCase) == r2.contains(Flag::TableCase));
    assert(r1.contains(Flag::Pluralize) == r2.contains(Flag::Pluralize));
    assert(r1.contains(Flag::Singularize) == r2.contains(Flag::Singularize));
    assert(r1.contains(Flag::UpperCase) == r2.contains(Flag::UpperCase));
    assert(r1.contains(Flag::LowerCase) == r2.contains(Flag::LowerCase));
    assert(spec_flag_set(r1) == spec_flag_set(r2));
}

} // verus!
