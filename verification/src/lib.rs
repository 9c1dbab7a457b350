//! A small library behind a command-line tool that runs one read-only SQL
//! statement over a list of tabular data files and serializes the result.
//!
//! The library holds the decision logic of that pipeline: classifying input
//! arguments into data sources and the SQL statement, naming the sources
//! `t0, t1, ...` in arrival order, enforcing the phase order of the executor
//! (parse, plan, policy check, optimize, execute), and choosing the output
//! encoding. The surrounding process wiring (argument parsing, the async
//! engine calls, the output writers) lives outside the library.

pub mod errors;
pub mod executor;
pub mod output;
pub mod registrar;
pub mod text;
