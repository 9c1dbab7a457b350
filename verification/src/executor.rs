//! The statement executor: the fixed phase order of one run -- parse the
//! SQL text, bind it to a plan, enforce the read-only policy, optimize,
//! execute -- with the engine's synchronous calls behind trusted wrappers
//! and the sequencing itself verified.
//!
//! The engine's asynchronous calls (binding the statement to a plan and
//! executing the optimized plan) are suspend points of the surrounding
//! process; their outcomes are fed back into the verified step relation.

use vstd::prelude::*;

use crate::errors::{DfqError, DfqResult, ErrorKind};

verus! {

#[verifier::external_type_specification]
#[verifier::external_body]
/// Declares the engine's session state, which carries the catalog and the
/// configuration; opaque to the library.
pub struct ExSessionState(datafusion::execution::SessionState);

#[verifier::external_type_specification]
#[verifier::external_body]
/// Declares the engine's dialect selector; opaque to the library.
pub struct ExDialect(datafusion::common::config::Dialect);

#[verifier::external_type_specification]
#[verifier::external_body]
/// Declares the engine's parsed statement; opaque to the library.
pub struct ExStatement(datafusion::sql::parser::Statement);

#[verifier::external_type_specification]
#[verifier::external_body]
/// Declares the engine's logical plan; opaque to the library.
pub struct ExLogicalPlan(datafusion::logical_expr::LogicalPlan);

/// The numeric value a character compares by when ASCII case is ignored:
/// an ASCII capital letter counts as its small form, every other character
/// as itself.
pub open spec fn ascii_lower_code(c: char) -> int {
    if 'A' as int <= c as int && c as int <= 'Z' as int {
        c as int + 32
    } else {
        c as int
    }
}

/// The two character sequences are equal up to ASCII case.
pub open spec fn ascii_case_eq_seq(a: Seq<char>, b: Seq<char>) -> bool {
    a.len() == b.len() && (forall|i: int|
        0 <= i < a.len() ==> ascii_lower_code(a[i]) == ascii_lower_code(#[trigger] b[i]))
}

/// The dialect names the engine accepts: its canonical names and the two
/// aliases, compared without regard to ASCII case.
pub open spec fn dialect_known(s: Seq<char>) -> bool {
    ||| ascii_case_eq_seq(s, "generic"@)
    ||| ascii_case_eq_seq(s, "mysql"@)
    ||| ascii_case_eq_seq(s, "postgresql"@)
    ||| ascii_case_eq_seq(s, "postgres"@)
    ||| ascii_case_eq_seq(s, "hive"@)
    ||| ascii_case_eq_seq(s, "sqlite"@)
    ||| ascii_case_eq_seq(s, "snowflake"@)
    ||| ascii_case_eq_seq(s, "redshift"@)
    ||| ascii_case_eq_seq(s, "mssql"@)
    ||| ascii_case_eq_seq(s, "clickhouse"@)
    ||| ascii_case_eq_seq(s, "bigquery"@)
    ||| ascii_case_eq_seq(s, "ansi"@)
    ||| ascii_case_eq_seq(s, "duckdb"@)
    ||| ascii_case_eq_seq(s, "databricks"@)
    ||| ascii_case_eq_seq(s, "spark"@)
    ||| ascii_case_eq_seq(s, "sparksql"@)
}

/// Relies on datafusion's `Dialect::from_str`: an ASCII-case-insensitive
/// lookup, depending on the name alone, in a fixed table of canonical
/// dialect names and aliases -- the names `dialect_known` lists. It
/// succeeds exactly on those names and fails on every other.
#[verifier::external_body]
fn dialect_from_name(name: &str) -> (r: Result<datafusion::common::config::Dialect, String>)
    ensures
        r is Ok <==> dialect_known(name@),
{
    match name.parse::<datafusion::common::config::Dialect>() {
        Ok(d) => Ok(d),
        Err(e) => Err(e.to_string()),
    }
}

/// Relies on datafusion's `SessionState::sql_to_statement`: parses the SQL
/// text under the given dialect into one statement, failing on malformed
/// text, on an empty statement list, or on more than one statement.
#[verifier::external_body]
fn sql_text_to_statement(
    state: &datafusion::execution::SessionState,
    query: &str,
    dialect: &datafusion::common::config::Dialect,
) -> (r: Result<datafusion::sql::parser::Statement, String>) {
    match state.sql_to_statement(query, dialect) {
        Ok(statement) => Ok(statement),
        Err(e) => Err(e.to_string()),
    }
}

/// Relies on datafusion's `SQLOptions::verify_plan`: visits the plan and
/// errors on a data definition node when `allow_ddl` is false and on a
/// data manipulation node when `allow_dml` is false; set statements stay
/// allowed, as the engine's default options have it.
#[verifier::external_body]
fn verify_plan_with(
    plan: &datafusion::logical_expr::LogicalPlan,
    allow_ddl: bool,
    allow_dml: bool,
) -> (r: Result<(), String>) {
    let options = datafusion::prelude::SQLOptions::new()
        .with_allow_ddl(allow_ddl)
        .with_allow_dml(allow_dml);
    match options.verify_plan(plan) {
        Ok(()) => Ok(()),
        Err(e) => Err(e.to_string()),
    }
}

/// Relies on datafusion's `SessionState::optimize`: rewrites the plan by
/// the engine's optimizer rules, a pure transformation of the plan.
#[verifier::external_body]
fn optimize_logical_plan(
    state: &datafusion::execution::SessionState,
    plan: &datafusion::logical_expr::LogicalPlan,
) -> (r: Result<datafusion::logical_expr::LogicalPlan, String>) {
    match state.optimize(plan) {
        Ok(optimized) => Ok(optimized),
        Err(e) => Err(e.to_string()),
    }
}

/// Resolve the dialect name selected for the session: it succeeds exactly
/// on the names the engine knows, and an unknown name is a failure of the
/// parse phase.
pub fn resolve_dialect(name: &str) -> (r: DfqResult<datafusion::common::config::Dialect>)
    ensures
        r is Ok <==> dialect_known(name@),
        r matches Err(e) ==> e.kind_spec() == ErrorKind::ParseError,
{
    match dialect_from_name(name) {
        Ok(d) => Ok(d),
        Err(m) => Err(DfqError::ParseError(m)),
    }
}

/// Law: the default dialect name is a known one, so resolving it is owed
/// success; and a known name stays known under any ASCII case variation.
pub proof fn lemma_default_dialect_known()
    ensures
        dialect_known("ansi"@),
        forall|a: Seq<char>, b: Seq<char>|
            #[trigger] ascii_case_eq_seq(a, b) && dialect_known(b) ==> dialect_known(a),
{
    assert(ascii_case_eq_seq("ansi"@, "ansi"@));
    assert forall|a: Seq<char>, b: Seq<char>|
        #[trigger] ascii_case_eq_seq(a, b) && dialect_known(b) implies dialect_known(a) by {
        assert forall|c: Seq<char>|
            ascii_case_eq_seq(b, c) implies #[trigger] ascii_case_eq_seq(a, c) by {
            assert(forall|i: int|
                0 <= i < a.len() ==> ascii_lower_code(a[i]) == ascii_lower_code(#[trigger] c[i]));
        }
    }
}

/// Parse the SQL text under the given dialect. Every failure of this phase
/// is classified as a parse error.
pub fn parse_statement(
    state: &datafusion::execution::SessionState,
    query: &str,
    dialect: &datafusion::common::config::Dialect,
) -> (r: DfqResult<datafusion::sql::parser::Statement>)
    ensures
        r matches Err(e) ==> e.kind_spec() == ErrorKind::ParseError,
{
    match sql_text_to_statement(state, query, dialect) {
        Ok(statement) => Ok(statement),
        Err(m) => Err(DfqError::ParseError(m)),
    }
}

/// Enforce the read-only policy on a bound plan: neither data definition
/// nor data manipulation is allowed. Every rejection of this hard gate is
/// a policy violation; it is never downgraded.
pub fn check_policy(plan: &datafusion::logical_expr::LogicalPlan) -> (r: DfqResult<()>)
    ensures
        r matches Err(e) ==> e.kind_spec() == ErrorKind::PolicyViolation,
{
    match verify_plan_with(plan, false, false) {
        Ok(()) => Ok(()),
        Err(m) => Err(DfqError::PolicyViolation(m)),
    }
}

/// Optimize a plan that passed the policy gate. A failure of the engine's
/// optimizer is not otherwise classified.
pub fn optimize_plan(
    state: &datafusion::execution::SessionState,
    plan: &datafusion::logical_expr::LogicalPlan,
) -> (r: DfqResult<datafusion::logical_expr::LogicalPlan>)
    ensures
        r matches Err(e) ==> e.kind_spec() == ErrorKind::Unknown,
{
    match optimize_logical_plan(state, plan) {
        Ok(optimized) => Ok(optimized),
        Err(m) => Err(DfqError::Unknown(m)),
    }
}

/// The phases of one run of the executor, in their fixed order.
#[derive(Clone, Copy, Debug, PartialEq, Eq, Structural)]
pub enum Phase {
    /// Parsing the SQL text under the selected dialect.
    Parse,
    /// Binding the statement against the catalog into a logical plan.
    Plan,
    /// The read-only policy gate over the bound plan.
    Check,
    /// The engine's optimizer pass.
    Optimize,
    /// Pulling the result stream from the engine.
    Execute,
}

/// The state of one run: awaiting the outcome of a phase, complete, or
/// aborted by the first failure.
#[derive(Debug)]
pub enum PipelineState {
    Awaiting(Phase),
    Complete,
    Aborted(DfqError),
}

/// The phase after `p`, if any.
pub open spec fn next_phase(p: Phase) -> Option<Phase> {
    match p {
        Phase::Parse => Some(Phase::Plan),
        Phase::Plan => Some(Phase::Check),
        Phase::Check => Some(Phase::Optimize),
        Phase::Optimize => Some(Phase::Execute),
        Phase::Execute => None,
    }
}

/// The error a failure reported in phase `p` is classified as: a parse
/// failure is a `ParseError`, an unresolved reference while binding a
/// `BindingError`, a rejected plan a `PolicyViolation`, and a failure of
/// the engine while optimizing or executing is not otherwise classified.
pub open spec fn phase_error(p: Phase, msg: String) -> DfqError {
    match p {
        Phase::Parse => DfqError::ParseError(msg),
        Phase::Plan => DfqError::BindingError(msg),
        Phase::Check => DfqError::PolicyViolation(msg),
        Phase::Optimize => DfqError::Unknown(msg),
        Phase::Execute => DfqError::Unknown(msg),
    }
}

/// One transition of the run: on success move to the next phase, or
/// complete after the last; on failure abort with the error of the current
/// phase. A finished run never moves again.
pub open spec fn step_spec(s: PipelineState, ok: bool, msg: String) -> PipelineState {
    match s {
        PipelineState::Awaiting(p) => if ok {
            match next_phase(p) {
                Some(q) => PipelineState::Awaiting(q),
                None => PipelineState::Complete,
            }
        } else {
            PipelineState::Aborted(phase_error(p, msg))
        },
        PipelineState::Complete => PipelineState::Complete,
        PipelineState::Aborted(e) => PipelineState::Aborted(e),
    }
}

/// The state a run starts in.
pub fn pipeline_start() -> (s: PipelineState)
    ensures
        s == PipelineState::Awaiting(Phase::Parse),
{
    PipelineState::Awaiting(Phase::Parse)
}

/// Drive the run by one phase outcome: `ok` says whether the phase's
/// engine call succeeded, and `msg` carries the engine's error text
/// otherwise.
pub fn pipeline_step(s: PipelineState, ok: bool, msg: String) -> (t: PipelineState)
    ensures
        t == step_spec(s, ok, msg),
{
    match s {
        PipelineState::Awaiting(p) => if ok {
            match p {
                Phase::Parse => PipelineState::Awaiting(Phase::Plan),
                Phase::Plan => PipelineState::Awaiting(Phase::Check),
                Phase::Check => PipelineState::Awaiting(Phase::Optimize),
                Phase::Optimize => PipelineState::Awaiting(Phase::Execute),
                Phase::Execute => PipelineState::Complete,
            }
        } else {
            match p {
                Phase::Parse => PipelineState::Aborted(DfqError::ParseError(msg)),
                Phase::Plan => PipelineState::Aborted(DfqError::BindingError(msg)),
                Phase::Check => PipelineState::Aborted(DfqError::PolicyViolation(msg)),
                Phase::Optimize => PipelineState::Aborted(DfqError::Unknown(msg)),
                Phase::Execute => PipelineState::Aborted(DfqError::Unknown(msg)),
            }
        },
        PipelineState::Complete => PipelineState::Complete,
        PipelineState::Aborted(e) => PipelineState::Aborted(e),
    }
}

/// The state after feeding the phase outcomes `events`, in order, to a run
/// standing at `s`.
pub open spec fn run_spec(s: PipelineState, events: Seq<(bool, String)>) -> PipelineState
    decreases events.len(),
{
    if events.len() == 0 {
        s
    } else {
        run_spec(step_spec(s, events[0].0, events[0].1), events.drop_first())
    }
}

/// The state after feeding `events` to a fresh run.
pub open spec fn pipeline_run(events: Seq<(bool, String)>) -> PipelineState {
    run_spec(PipelineState::Awaiting(Phase::Parse), events)
}

/// The run from `s` stands at `t` at some point while feeding `events`.
pub open spec fn visits(s: PipelineState, events: Seq<(bool, String)>, t: PipelineState) -> bool
    decreases events.len(),
{
    s == t || (events.len() > 0 && visits(
        step_spec(s, events[0].0, events[0].1),
        events.drop_first(),
        t,
    ))
}

/// An aborted run stays aborted, whatever else is reported.
pub proof fn lemma_run_from_aborted(e: DfqError, events: Seq<(bool, String)>)
    ensures
        run_spec(PipelineState::Aborted(e), events) == PipelineState::Aborted(e),
    decreases events.len(),
{
    if events.len() > 0 {
        lemma_run_from_aborted(e, events.drop_first());
    }
}

/// An aborted run visits no other state.
pub proof fn lemma_visits_from_aborted(
    e: DfqError,
    events: Seq<(bool, String)>,
    t: PipelineState,
)
    requires
        visits(PipelineState::Aborted(e), events, t),
    ensures
        t == PipelineState::Aborted(e),
    decreases events.len(),
{
    if PipelineState::Aborted(e) != t {
        lemma_visits_from_aborted(e, events.drop_first(), t);
    }
}

/// Law: when parsing and binding succeed and the policy check then fails,
/// the run ends aborted with a `PolicyViolation` that holds the message of
/// the check, whatever the engine would have reported afterwards. The
/// dialect is no input of the step relation, so this holds under every
/// dialect.
pub proof fn lemma_policy_failure_aborts(events: Seq<(bool, String)>)
    requires
        events.len() >= 3,
        events[0].0,
        events[1].0,
        !events[2].0,
    ensures
        pipeline_run(events) == PipelineState::Aborted(DfqError::PolicyViolation(events[2].1)),
{
    let e1 = events.drop_first();
    let e2 = e1.drop_first();
    let e3 = e2.drop_first();
    assert(run_spec(PipelineState::Awaiting(Phase::Parse), events) == run_spec(
        PipelineState::Awaiting(Phase::Plan),
        e1,
    ));
    assert(run_spec(PipelineState::Awaiting(Phase::Plan), e1) == run_spec(
        PipelineState::Awaiting(Phase::Check),
        e2,
    ));
    assert(e2[0] == events[2]);
    assert(run_spec(PipelineState::Awaiting(Phase::Check), e2) == run_spec(
        PipelineState::Aborted(DfqError::PolicyViolation(events[2].1)),
        e3,
    ));
    lemma_run_from_aborted(DfqError::PolicyViolation(events[2].1), e3);
}

/// Law: a run reaches the executing phase only when every phase before it
/// -- parsing, binding, the policy check, and the optimizer pass --
/// reported success; in particular, nothing is executed once the policy
/// gate has rejected the plan.
pub proof fn lemma_execute_only_after_check(events: Seq<(bool, String)>)
    requires
        visits(
            PipelineState::Awaiting(Phase::Parse),
            events,
            PipelineState::Awaiting(Phase::Execute),
        ),
    ensures
        events.len() >= 4,
        events[0].0,
        events[1].0,
        events[2].0,
        events[3].0,
{
    let target = PipelineState::Awaiting(Phase::Execute);
    let e1 = events.drop_first();
    let e2 = e1.drop_first();
    let e3 = e2.drop_first();
    assert(PipelineState::Awaiting(Phase::Parse) != target);
    assert(events.len() > 0);
    if !events[0].0 {
        lemma_visits_from_aborted(phase_error(Phase::Parse, events[0].1), e1, target);
        assert(false);
    }
    assert(visits(PipelineState::Awaiting(Phase::Plan), e1, target));
    assert(e1.len() > 0);
    assert(e1[0] == events[1]);
    if !events[1].0 {
        lemma_visits_from_aborted(phase_error(Phase::Plan, events[1].1), e2, target);
        assert(false);
    }
    assert(visits(PipelineState::Awaiting(Phase::Check), e2, target));
    assert(e2.len() > 0);
    assert(e2[0] == events[2]);
    if !events[2].0 {
        lemma_visits_from_aborted(phase_error(Phase::Check, events[2].1), e3, target);
        assert(false);
    }
    assert(visits(PipelineState::Awaiting(Phase::Optimize), e3, target));
    assert(e3.len() > 0);
    assert(e3[0] == events[3]);
    if !events[3].0 {
        lemma_visits_from_aborted(
            phase_error(Phase::Optimize, events[3].1),
            e3.drop_first(),
            target,
        );
        assert(false);
    }
}

} // verus!
