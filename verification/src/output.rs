//! The output-format selector: a closed set of five encodings, the names
//! they are selected by, and the materialization each one needs.

use vstd::prelude::*;

use crate::text::str_eq_str;

verus! {

/// The five encodings a result set can be written in.
#[derive(Clone, Copy, Debug, PartialEq, Eq, Structural)]
pub enum OutputFormat {
    /// One JSON object per row, newline-delimited; incremental.
    Json,
    /// All rows in one JSON array; framed once per whole stream.
    JsonArray,
    /// A header once, then one line per row; incremental.
    Csv,
    /// The Parquet columnar format; needs the schema up front.
    Parquet,
    /// A pretty-printed table; buffers the whole result set.
    Terminal,
}

/// The selector name of each format.
pub open spec fn format_name_spec(f: OutputFormat) -> Seq<char> {
    match f {
        OutputFormat::Json => "json"@,
        OutputFormat::JsonArray => "jsonarray"@,
        OutputFormat::Csv => "csv"@,
        OutputFormat::Parquet => "parquet"@,
        OutputFormat::Terminal => "terminal"@,
    }
}

/// The format a selector name picks, if any.
pub open spec fn format_of_name_spec(s: Seq<char>) -> Option<OutputFormat> {
    if s == "json"@ {
        Some(OutputFormat::Json)
    } else if s == "jsonarray"@ {
        Some(OutputFormat::JsonArray)
    } else if s == "csv"@ {
        Some(OutputFormat::Csv)
    } else if s == "parquet"@ {
        Some(OutputFormat::Parquet)
    } else if s == "terminal"@ {
        Some(OutputFormat::Terminal)
    } else {
        None
    }
}

impl OutputFormat {
    /// The name this format is selected by on the command line.
    pub fn name(&self) -> (r: &'static str)
        ensures
            r@ == format_name_spec(*self),
    {
        match self {
            OutputFormat::Json => "json",
            OutputFormat::JsonArray => "jsonarray",
            OutputFormat::Csv => "csv",
            OutputFormat::Parquet => "parquet",
            OutputFormat::Terminal => "terminal",
        }
    }

    /// Resolve a selector name to its format; `None` on an unknown name.
    pub fn from_name(s: &str) -> (r: Option<OutputFormat>)
        ensures
            r == format_of_name_spec(s@),
    {
        if str_eq_str(s, "json") {
            Some(OutputFormat::Json)
        } else if str_eq_str(s, "jsonarray") {
            Some(OutputFormat::JsonArray)
        } else if str_eq_str(s, "csv") {
            Some(OutputFormat::Csv)
        } else if str_eq_str(s, "parquet") {
            Some(OutputFormat::Parquet)
        } else if str_eq_str(s, "terminal") {
            Some(OutputFormat::Terminal)
        } else {
            None
        }
    }

    /// The default selection when none is given.
    pub fn default_format() -> (r: OutputFormat)
        ensures
            r == OutputFormat::Terminal,
    {
        OutputFormat::Terminal
    }

    /// Whether the writer must materialize the entire result set before
    /// emitting anything: only the pretty-printed table does, because its
    /// column widths are computed from all values. The other encodings are
    /// written batch by batch.
    pub fn buffers_entire_result(&self) -> (r: bool)
        ensures
            r == (*self is Terminal),
    {
        match self {
            OutputFormat::Terminal => true,
            _ => false,
        }
    }

    /// Whether the writer must substitute one empty, schema-bearing batch
    /// for a result set that came back with no batches at all: exactly the
    /// pretty-printed table does, so that an empty result still prints a
    /// header-only table instead of nothing.
    pub fn substitutes_empty_batch(&self, batch_count: usize) -> (r: bool)
        ensures
            r == (*self is Terminal && batch_count == 0),
    {
        match self {
            OutputFormat::Terminal => batch_count == 0,
            _ => false,
        }
    }

    /// Whether the writer needs the full output schema before the first
    /// batch: only the columnar Parquet encoding does.
    pub fn needs_schema_up_front(&self) -> (r: bool)
        ensures
            r == (*self is Parquet),
    {
        match self {
            OutputFormat::Parquet => true,
            _ => false,
        }
    }
}

/// Law: resolving a format's own selector name yields that format back, so
/// the five names are distinct and the selector set is closed over them.
pub proof fn lemma_format_name_round_trip(f: OutputFormat)
    ensures
        format_of_name_spec(format_name_spec(f)) == Some(f),
{
    reveal_strlit("json");
    reveal_strlit("jsonarray");
    reveal_strlit("csv");
    reveal_strlit("parquet");
    reveal_strlit("terminal");
    assert(("json"@).len() == 4);
    assert(("jsonarray"@).len() == 9);
    assert(("csv"@).len() == 3);
    assert(("parquet"@).len() == 7);
    assert(("terminal"@).len() == 8);
}

} // verus!
