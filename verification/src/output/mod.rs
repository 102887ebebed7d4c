//! Output formatting of port diagnostics: format selection and the CSV,
//! JSON and table renderers.

pub mod csv_formatter;
pub mod json_formatter;
pub mod table_formatter;

use vstd::prelude::*;

use crate::strutil::{spec_lower, str_eq_ignore_case};

verus! {

/// Output format selection.
#[derive(Debug, Clone, Copy, PartialEq, Eq, Structural)]
pub enum OutputFormat {
    Table,
    Json,
    Csv,
}

impl OutputFormat {
    /// Resolves a format name loosely, case-insensitively; unknown names
    /// give the table format.
    pub fn from_str_loose(s: &str) -> (r: OutputFormat)
        ensures
            r == if spec_lower(s@) == spec_lower("json"@) {
                OutputFormat::Json
            } else if spec_lower(s@) == spec_lower("csv"@) {
                OutputFormat::Csv
            } else {
                OutputFormat::Table
            },
    {
        if str_eq_ignore_case(s, "json") {
            OutputFormat::Json
        } else if str_eq_ignore_case(s, "csv") {
            OutputFormat::Csv
        } else {
            OutputFormat::Table
        }
    }
}

} // verus!
