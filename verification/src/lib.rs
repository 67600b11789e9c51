//! A small builder library for parameterized SQL statements.
//!
//! Given a target table and a list of typed field/value pairs, a builder
//! produces a SQL string with positional placeholders (`$1`, `$2`, ...)
//! together with the ordered list of bound values, such that the n-th value
//! always corresponds to the n-th placeholder.

mod builder;
mod helpers;
mod insert;
mod value;

pub use builder::SqlBuilder;
pub use helpers::{
    count_char, into_returnings, lemma_params_dollar_count, spec_comma_join, spec_comma_names,
    spec_decimal, spec_merge_returnings, spec_params, spec_placeholder, spec_quoted,
    spec_returnings, sql_comma_names, sql_comma_params, sql_returnings,
};
pub use insert::{
    insert, lemma_data_clause_visible, lemma_merge_returnings_appends,
    lemma_render_extract_deterministic, lemma_values_match_placeholders, spec_insert_sql,
    spec_insert_vals, InsertView, SqlInsertBuilder,
};
pub use value::{Field, FieldView, Val, ValView};
