//! The source registrar: classifies each positional argument by its
//! file-extension suffix, binds each data file to a fresh sequential table
//! name `t0, t1, ...`, and hands the first non-data argument over as the SQL
//! statement.

use vstd::prelude::*;

use crate::errors::{DfqError, DfqResult, ErrorKind};
use crate::text::{dec_rep, dec_string, ends_with_str, lemma_dec_rep_injective, suffix_of};

verus! {

/// The tabular encodings a data file may hold.
#[derive(Clone, Copy, Debug, PartialEq, Eq, Structural)]
pub enum SourceFormat {
    /// Comma-separated values, plain or gzip-compressed.
    Csv,
    /// Newline-delimited JSON, plain or gzip-compressed.
    Ndjson,
    /// The Parquet columnar format.
    Parquet,
}

/// The format a path is loaded under, decided by an exact, case-sensitive
/// suffix match; `None` marks a path that is no recognized data file.
pub open spec fn classify_spec(s: Seq<char>) -> Option<SourceFormat> {
    if suffix_of(s, ".csv"@) || suffix_of(s, ".csv.gz"@) {
        Some(SourceFormat::Csv)
    } else if suffix_of(s, ".json"@) || suffix_of(s, ".json.gz"@) {
        Some(SourceFormat::Ndjson)
    } else if suffix_of(s, ".parquet"@) || suffix_of(s, ".prq"@) {
        Some(SourceFormat::Parquet)
    } else {
        None
    }
}

/// Decide which loader, if any, a path is dispatched to.
pub fn classify_source(arg: &str) -> (r: Option<SourceFormat>)
    ensures
        r == classify_spec(arg@),
{
    if ends_with_str(arg, ".csv") || ends_with_str(arg, ".csv.gz") {
        Some(SourceFormat::Csv)
    } else if ends_with_str(arg, ".json") || ends_with_str(arg, ".json.gz") {
        Some(SourceFormat::Ndjson)
    } else if ends_with_str(arg, ".parquet") || ends_with_str(arg, ".prq") {
        Some(SourceFormat::Parquet)
    } else {
        None
    }
}

/// The table name assigned to the `i`-th registered source: `t` followed by
/// the decimal rendering of `i`.
pub open spec fn table_name_spec(i: nat) -> Seq<char> {
    seq!['t'] + dec_rep(i)
}

/// Build the table name of the `i`-th registered source.
pub fn table_name(i: u64) -> (r: String)
    ensures
        r@ == table_name_spec(i as nat),
{
    let digits = dec_string(i);
    let r = String::from_str("t").concat(digits.as_str());
    proof {
        reveal_strlit("t");
        assert(r@ =~= table_name_spec(i as nat));
    }
    r
}

/// One input file, bound to the loader for its format and to its assigned
/// logical table name. Immutable once created.
#[derive(Debug)]
pub struct DataSource {
    pub path: String,
    pub format: SourceFormat,
    pub table_name: String,
}

/// The `i`-th registered source records the `i`-th argument, the format its
/// suffix selects, and the `i`-th sequential table name.
pub open spec fn source_ok(ds: DataSource, arg: Seq<char>, i: nat) -> bool {
    &&& ds.path@ == arg
    &&& classify_spec(arg) == Some(ds.format)
    &&& ds.table_name@ == table_name_spec(i)
}

/// The outcome of the registration phase: every data source in arrival
/// order, and the SQL statement that ended the phase.
#[derive(Debug)]
pub struct RegistrationPlan {
    pub sources: Vec<DataSource>,
    pub statement: String,
}

/// `plan` is exactly what registration makes of `args`: its sources cover
/// the longest prefix of recognized data files, named `t0, t1, ...` in
/// arrival order, and its statement is the first argument after that prefix.
pub open spec fn plan_matches(plan: RegistrationPlan, args: Seq<String>) -> bool {
    let k = plan.sources@.len();
    &&& k < args.len()
    &&& forall|j: int| 0 <= j < k ==> source_ok(#[trigger] plan.sources@[j], args[j]@, j as nat)
    &&& classify_spec(args[k as int]@) is None
    &&& plan.statement@ == args[k as int]@
}

/// Split the positional arguments into registered data sources and the SQL
/// statement.
///
/// Fails with `InvalidArgument` exactly when the list is empty or every
/// argument looks like a data file, so that no statement follows the
/// sources; nothing is registered in that case. Arguments after the
/// statement take no part in the plan.
pub fn plan_registration(args: &Vec<String>) -> (r: DfqResult<RegistrationPlan>)
    ensures
        r matches Ok(plan) ==> plan_matches(plan, args@),
        r is Err <==> (args@.len() == 0 || (forall|j: int|
            0 <= j < args@.len() ==> (#[trigger] classify_spec(args@[j]@)) is Some)),
        r matches Err(e) ==> e.kind_spec() == ErrorKind::InvalidArgument,
        args@.len() == 0 ==> (r matches Err(e) && e matches DfqError::InvalidArgument(m)
            && m@ == "no inputs"@),
        (args@.len() > 0 && r is Err) ==> (r matches Err(e)
            && e matches DfqError::InvalidArgument(m) && m@ == "missing SQL statement"@),
{
    if args.len() == 0 {
        return Err(DfqError::InvalidArgument(String::from_str("no inputs")));
    }
    let mut sources: Vec<DataSource> = Vec::new();
    let mut i: usize = 0;
    while i < args.len()
        invariant
            i <= args@.len(),
            sources@.len() == i,
            forall|j: int| 0 <= j < i ==> source_ok(#[trigger] sources@[j], args@[j]@, j as nat),
            forall|j: int| 0 <= j < i ==> (#[trigger] classify_spec(args@[j]@)) is Some,
        decreases args@.len() - i,
    {
        let arg = &args[i];
        match classify_source(arg.as_str()) {
            Some(format) => {
                let name = table_name(i as u64);
                sources.push(DataSource { path: arg.clone(), format, table_name: name });
                i += 1;
            },
            None => {
                return Ok(RegistrationPlan { sources, statement: arg.clone() });
            },
        }
    }
    Err(DfqError::InvalidArgument(String::from_str("missing SQL statement")))
}

/// Law: sequential table names are unambiguous. Two distinct sources of
/// one registration plan never share a table name, so a statement that
/// refers to a registered table resolves it to exactly one source.
pub proof fn lemma_table_names_unique(plan: RegistrationPlan, args: Seq<String>, i: int, j: int)
    requires
        plan_matches(plan, args),
        0 <= i < j < plan.sources@.len(),
    ensures
        plan.sources@[i].table_name@ != plan.sources@[j].table_name@,
{
    assert(source_ok(plan.sources@[i], args[i]@, i as nat));
    assert(source_ok(plan.sources@[j], args[j]@, j as nat));
    if plan.sources@[i].table_name@ == plan.sources@[j].table_name@ {
        let a = dec_rep(i as nat);
        let b = dec_rep(j as nat);
        assert(a =~= b) by {
            assert((seq!['t'] + a).len() == 1 + a.len());
            assert((seq!['t'] + b).len() == 1 + b.len());
            assert forall|k: int| 0 <= k < a.len() implies a[k] == b[k] by {
                assert((seq!['t'] + a)[k + 1] == a[k]);
                assert((seq!['t'] + b)[k + 1] == b[k]);
            }
        }
        lemma_dec_rep_injective(i as nat, j as nat);
        assert(false);
    }
}

} // verus!
