//! A string-case and morphology transformation pipeline: given an input
//! string and a set of named transformation flags, every active
//! transformation is applied in one fixed, documented order, each step
//! consuming the previous step's output. The per-word case conversions,
//! pluralization and singularization are computed by the `inflector`
//! crate behind contracts; the dispatch order, the ordinal handling and
//! the composition rules are stated and verified here.

pub mod engine;
pub mod flags;
pub mod ordinal;
pub mod primitives;
pub mod split;

pub use engine::{
    camel_case, class_case, deconstantize, demodulize, kebab_case, lemma_request_order_irrelevant,
    lower_case, pascal_case, pluralize, screaming_snake_case, sentence_case, singularize,
    snake_case, table_case, title_case, to_foreign_key, train_case, transform, upper_case,
    HandlebarsInflector,
};
pub use flags::{Flag, FlagSet};
pub use ordinal::{deordinalize, lemma_ordinal_round_trip, ordinalize};
