//! `json_extract_string(column, 'key')`: reads one top-level member of a JSON
//! object column as SQL text, row by row, with NULL wherever there is nothing
//! to read.
pub mod extract;
pub mod json;
pub mod udf;
