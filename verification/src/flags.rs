//! The transformation flags and the flag set: a flag is boolean by
//! presence, duplicates in a request add nothing, and only membership in
//! the set matters — execution order is fixed elsewhere, by the canonical
//! table.

use vstd::prelude::*;

verus! {

/// One named transformation of the catalog.
#[derive(Clone, Copy, PartialEq, Eq, Structural, Debug)]
pub enum Flag {
    CamelCase,
    PascalCase,
    SnakeCase,
    ScreamingSnakeCase,
    KebabCase,
    TrainCase,
    SentenceCase,
    TitleCase,
    Ordinalize,
    Deordinalize,
    ToForeignKey,
    Demodulize,
    Deconstantize,
    ClassCase,
    TableCase,
    Pluralize,
    Singularize,
    UpperCase,
    LowerCase,
}

/// The set of flags active for one invocation: presence means "apply this
/// transformation", and nothing but membership matters.
#[derive(Clone, Copy, PartialEq, Eq, Structural, Debug)]
pub struct FlagSet {
    pub camel_case: bool,
    pub pascal_case: bool,
    pub snake_case: bool,
    pub screaming_snake_case: bool,
    pub kebab_case: bool,
    pub train_case: bool,
    pub sentence_case: bool,
    pub title_case: bool,
    pub ordinalize: bool,
    pub deordinalize: bool,
    pub to_foreign_key: bool,
    pub demodulize: bool,
    pub deconstantize: bool,
    pub class_case: bool,
    pub table_case: bool,
    pub pluralize: bool,
    pub singularize: bool,
    pub upper_case: bool,
    pub lower_case: bool,
}

/// The flag set that a request (a sequence of flag names, in any order,
/// with any repetition) denotes: membership alone.
pub open spec fn spec_flag_set(reqs: Seq<Flag>) -> FlagSet {
    FlagSet {
        camel_case: reqs.contains(Flag::CamelCase),
        pascal_case: reqs.contains(Flag::PascalCase),
        snake_case: reqs.contains(Flag::SnakeCase),
        screaming_snake_case: reqs.contains(Flag::ScreamingSnakeCase),
        kebab_case: reqs.contains(Flag::KebabCase),
        train_case: reqs.contains(Flag::TrainCase),
        sentence_case: reqs.contains(Flag::SentenceCase),
        title_case: reqs.contains(Flag::TitleCase),
        ordinalize: reqs.contains(Flag::Ordinalize),
        deordinalize: reqs.contains(Flag::Deordinalize),
        to_foreign_key: reqs.contains(Flag::ToForeignKey),
        demodulize: reqs.contains(Flag::Demodulize),
        deconstantize: reqs.contains(Flag::Deconstantize),
        class_case: reqs.contains(Flag::ClassCase),
        table_case: reqs.contains(Flag::TableCase),
        pluralize: reqs.contains(Flag::Pluralize),
        singularize: reqs.contains(Flag::Singularize),
        upper_case: reqs.contains(Flag::UpperCase),
        lower_case: reqs.contains(Flag::LowerCase),
    }
}

impl FlagSet {
    /// The flag is active in this set.
    pub open spec fn spec_has(self, f: Flag) -> bool {
        match f {
            Flag::CamelCase => self.camel_case,
            Flag::PascalCase => self.pascal_case,
            Flag::SnakeCase => self.snake_case,
            Flag::ScreamingSnakeCase => self.screaming_snake_case,
            Flag::KebabCase => self.kebab_case,
            Flag::TrainCase => self.train_case,
            Flag::SentenceCase => self.sentence_case,
            Flag::TitleCase => self.title_case,
            Flag::Ordinalize => self.ordinalize,
            Flag::Deordinalize => self.deordinalize,
            Flag::ToForeignKey => self.to_foreign_key,
            Flag::Demodulize => self.demodulize,
            Flag::Deconstantize => self.deconstantize,
            Flag::ClassCase => self.class_case,
            Flag::TableCase => self.table_case,
            Flag::Pluralize => self.pluralize,
            Flag::Singularize => self.singularize,
            Flag::UpperCase => self.upper_case,
            Flag::LowerCase => self.lower_case,
        }
    }

    /// The set with this flag added.
    pub open spec fn spec_with(self, f: Flag) -> FlagSet {
        match f {
            Flag::CamelCase => FlagSet { camel_case: true, ..self },
            Flag::PascalCase => FlagSet { pascal_case: true, ..self },
            Flag::SnakeCase => FlagSet { snake_case: true, ..self },
            Flag::ScreamingSnakeCase => FlagSet { screaming_snake_case: true, ..self },
            Flag::KebabCase => FlagSet { kebab_case: true, ..self },
            Flag::TrainCase => FlagSet { train_case: true, ..self },
            Flag::SentenceCase => FlagSet { sentence_case: true, ..self },
            Flag::TitleCase => FlagSet { title_case: true, ..self },
            Flag::Ordinalize => FlagSet { ordinalize: true, ..self },
            Flag::Deordinalize => FlagSet { deordinalize: true, ..self },
            Flag::ToForeignKey => FlagSet { to_foreign_key: true, ..self },
            Flag::Demodulize => FlagSet { demodulize: true, ..self },
            Flag::Deconstantize => FlagSet { deconstantize: true, ..self },
            Flag::ClassCase => FlagSet { class_case: true, ..self },
            Flag::TableCase => FlagSet { table_case: true, ..self },
            Flag::Pluralize => FlagSet { pluralize: true, ..self },
            Flag::Singularize => FlagSet { singularize: true, ..self },
            Flag::UpperCase => FlagSet { upper_case: true, ..self },
            Flag::LowerCase => FlagSet { lower_case: true, ..self },
        }
    }

    /// The empty set: no transformation is applied.
    pub open spec fn spec_none() -> FlagSet {
        FlagSet {
            camel_case: false,
            pascal_case: false,
            snake_case: false,
            screaming_snake_case: false,
            kebab_case: false,
            train_case: false,
            sentence_case: false,
            title_case: false,
            ordinalize: false,
            deordinalize: false,
            to_foreign_key: false,
            demodulize: false,
            deconstantize: false,
            class_case: false,
            table_case: false,
            pluralize: false,
            singularize: false,
            upper_case: false,
            lower_case: false,
        }
    }

    /// The set with no flag active.
    pub fn none() -> (r: FlagSet)
        ensures
            r == FlagSet::spec_none(),
    {
        FlagSet {
            camel_case: false,
            pascal_case: false,
            snake_case: false,
            screaming_snake_case: false,
            kebab_case: false,
            train_case: false,
            sentence_case: false,
            title_case: false,
            ordinalize: false,
            deordinalize: false,
            to_foreign_key: false,
            demodulize: false,
            deconstantize: false,
            class_case: false,
            table_case: false,
            pluralize: false,
            singularize: false,
            upper_case: false,
            lower_case: false,
        }
    }

    /// Whether the flag is active.
    pub fn has(&self, f: Flag) -> (b: bool)
        ensures
            b == self.spec_has(f),
    {
        match f {
            Flag::CamelCase => self.camel_case,
            Flag::PascalCase => self.pascal_case,
            Flag::SnakeCase => self.snake_case,
            Flag::ScreamingSnakeCase => self.screaming_snake_case,
            Flag::KebabCase => self.kebab_case,
            Flag::TrainCase => self.train_case,
            Flag::SentenceCase => self.sentence_case,
            Flag::TitleCase => self.title_case,
            Flag::Ordinalize => self.ordinalize,
            Flag::Deordinalize => self.deordinalize,
            Flag::ToForeignKey => self.to_foreign_key,
            Flag::Demodulize => self.demodulize,
            Flag::Deconstantize => self.deconstantize,
            Flag::ClassCase => self.class_case,
            Flag::TableCase => self.table_case,
            Flag::Pluralize => self.pluralize,
            Flag::Singularize => self.singularize,
            Flag::UpperCase => self.upper_case,
            Flag::LowerCase => self.lower_case,
        }
    }

    /// This set with one more flag active; a flag already present changes
    /// nothing.
    pub fn with(self, f: Flag) -> (r: FlagSet)
        ensures
            r == self.spec_with(f),
    {
        match f {
            Flag::CamelCase => FlagSet { camel_case: true, ..self },
            Flag::PascalCase => FlagSet { pascal_case: true, ..self },
            Flag::SnakeCase => FlagSet { snake_case: true, ..self },
            Flag::ScreamingSnakeCase => FlagSet { screaming_snake_case: true, ..self },
            Flag::KebabCase => FlagSet { kebab_case: true, ..self },
            Flag::TrainCase => FlagSet { train_case: true, ..self },
            Flag::SentenceCase => FlagSet { sentence_case: true, ..self },
            Flag::TitleCase => FlagSet { title_case: true, ..self },
            Flag::Ordinalize => FlagSet { ordinalize: true, ..self },
            Flag::Deordinalize => FlagSet { deordinalize: true, ..self },
            Flag::ToForeignKey => FlagSet { to_foreign_key: true, ..self },
            Flag::Demodulize => FlagSet { demodulize: true, ..self },
            Flag::Deconstantize => FlagSet { deconstantize: true, ..self },
            Flag::ClassCase => FlagSet { class_case: true, ..self },
            Flag::TableCase => FlagSet { table_case: true, ..self },
            Flag::Pluralize => FlagSet { pluralize: true, ..self },
            Flag::Singularize => FlagSet { singularize: true, ..self },
            Flag::UpperCase => FlagSet { upper_case: true, ..self },
            Flag::LowerCase => FlagSet { lower_case: true, ..self },
        }
    }

    /// The set denoted by a request: exactly the flags the request names,
    /// in whatever order and multiplicity it names them.
    pub fn from_requests(reqs: &Vec<Flag>) -> (r: FlagSet)
        ensures
            r == spec_flag_set(reqs@),
    {
        FlagSet {
            camel_case: contains_flag(reqs, Flag::CamelCase),
            pascal_case: contains_flag(reqs, Flag::PascalCase),
            snake_case: contains_flag(reqs, Flag::SnakeCase),
            screaming_snake_case: contains_flag(reqs, Flag::ScreamingSnakeCase),
            kebab_case: contains_flag(reqs, Flag::KebabCase),
            train_case: contains_flag(reqs, Flag::TrainCase),
            sentence_case: contains_flag(reqs, Flag::SentenceCase),
            title_case: contains_flag(reqs, Flag::TitleCase),
            ordinalize: contains_flag(reqs, Flag::Ordinalize),
            deordinalize: contains_flag(reqs, Flag::Deordinalize),
            to_foreign_key: contains_flag(reqs, Flag::ToForeignKey),
            demodulize: contains_flag(reqs, Flag::Demodulize),
            deconstantize: contains_flag(reqs, Flag::Deconstantize),
            class_case: contains_flag(reqs, Flag::ClassCase),
            table_case: contains_flag(reqs, Flag::TableCase),
            pluralize: contains_flag(reqs, Flag::Pluralize),
            singularize: contains_flag(reqs, Flag::Singularize),
            upper_case: contains_flag(reqs, Flag::UpperCase),
            lower_case: contains_flag(reqs, Flag::LowerCase),
        }
    }
}

fn contains_flag(reqs: &Vec<Flag>, f: Flag) -> (b: bool)
    ensures
        b == reqs@.contains(f),
{
    let n = reqs.len();
    let mut i: usize = 0;
    while i < n
        invariant
            n == reqs@.len(),
            i <= n,
            forall|j: int| 0 <= j < i ==> reqs@[j] != f,
        decreases n - i,
    {
        if reqs[i] == f {
            assert(reqs@[i as int] == f);
            return true;
        }
        i += 1;
    }
    false
}

} // verus!
