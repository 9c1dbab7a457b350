use std::sync::Arc;

use datafusion::arrow::array::{ArrayRef, Int64Array, StringArray};
use datafusion::arrow::datatypes::{DataType, Field, Schema};
use datafusion::arrow::record_batch::RecordBatch;
use datafusion::prelude::SessionContext;

use dfq::errors::ErrorKind;
use dfq::executor::{check_policy, optimize_plan, parse_statement, resolve_dialect};

fn runtime() -> tokio::runtime::Runtime {
    tokio::runtime::Builder::new_current_thread()
        .enable_all()
        .build()
        .unwrap()
}

fn people_batch() -> RecordBatch {
    let schema = Arc::new(Schema::new(vec![
        Field::new("id", DataType::Int64, false),
        Field::new("name", DataType::Utf8, false),
    ]));
    RecordBatch::try_new(
        schema,
        vec![
            Arc::new(Int64Array::from(vec![1, 2])) as ArrayRef,
            Arc::new(StringArray::from(vec!["ada", "bob"])) as ArrayRef,
        ],
    )
    .unwrap()
}

fn scores_batch() -> RecordBatch {
    let schema = Arc::new(Schema::new(vec![
        Field::new("id", DataType::Int64, false),
        Field::new("score", DataType::Int64, false),
    ]));
    RecordBatch::try_new(
        schema,
        vec![
            Arc::new(Int64Array::from(vec![1, 2])) as ArrayRef,
            Arc::new(Int64Array::from(vec![10, 20])) as ArrayRef,
        ],
    )
    .unwrap()
}

async fn run_query(ctx: &SessionContext, sql: &str, dialect_name: &str) -> Vec<RecordBatch> {
    let state = ctx.state();
    let dialect = resolve_dialect(dialect_name).unwrap();
    let statement = parse_statement(&state, sql, &dialect).unwrap();
    let plan = state.statement_to_plan(statement).await.unwrap();
    check_policy(&plan).unwrap();
    let optimized = optimize_plan(&state, &plan).unwrap();
    let dataframe = ctx.execute_logical_plan(optimized).await.unwrap();
    dataframe.collect().await.unwrap()
}

#[test]
fn join_between_two_registered_tables_resolves_both_names() {
    runtime().block_on(async {
        let ctx = SessionContext::new();
        ctx.register_batch("t0", people_batch()).unwrap();
        ctx.register_batch("t1", scores_batch()).unwrap();
        let batches = run_query(
            &ctx,
            "select t0.id, t0.name, t1.score from t0 join t1 on t0.id = t1.id order by t0.id",
            "ansi",
        )
        .await;
        let rows: usize = batches.iter().map(|b| b.num_rows()).sum();
        assert_eq!(rows, 2);
        let first = &batches[0];
        assert_eq!(first.schema().field(0).name(), "id");
        assert_eq!(first.schema().field(1).name(), "name");
        assert_eq!(first.schema().field(2).name(), "score");
        let names = first
            .column(1)
            .as_any()
            .downcast_ref::<StringArray>()
            .unwrap();
        assert_eq!(names.value(0), "ada");
        assert_eq!(names.value(1), "bob");
    });
}

#[test]
fn drop_table_fails_the_policy_gate_before_execution() {
    runtime().block_on(async {
        let ctx = SessionContext::new();
        ctx.register_batch("t0", people_batch()).unwrap();
        let state = ctx.state();
        let dialect = resolve_dialect("ansi").unwrap();
        let statement = parse_statement(&state, "drop table t0", &dialect).unwrap();
        let plan = state.statement_to_plan(statement).await.unwrap();
        let err = check_policy(&plan).unwrap_err();
        assert_eq!(err.kind(), ErrorKind::PolicyViolation);
        assert!(err.message().starts_with("PolicyViolation: "));
        // The table is untouched: a read still succeeds.
        let batches = run_query(&ctx, "select * from t0", "ansi").await;
        let rows: usize = batches.iter().map(|b| b.num_rows()).sum();
        assert_eq!(rows, 2);
    });
}

#[test]
fn ddl_and_dml_are_rejected_under_every_dialect() {
    runtime().block_on(async {
        for dialect_name in ["ansi", "generic", "postgresql", "mysql"] {
            let ctx = SessionContext::new();
            ctx.register_batch("t0", people_batch()).unwrap();
            let state = ctx.state();
            let dialect = resolve_dialect(dialect_name).unwrap();

            let ddl = parse_statement(&state, "create table temp_copy (x int)", &dialect).unwrap();
            let ddl_plan = state.statement_to_plan(ddl).await.unwrap();
            let err = check_policy(&ddl_plan).unwrap_err();
            assert_eq!(err.kind(), ErrorKind::PolicyViolation);

            let dml = parse_statement(&state, "insert into t0 values (3, 'eve')", &dialect).unwrap();
            let dml_plan = state.statement_to_plan(dml).await.unwrap();
            let err = check_policy(&dml_plan).unwrap_err();
            assert_eq!(err.kind(), ErrorKind::PolicyViolation);
        }
    });
}

#[test]
fn unknown_dialect_is_a_parse_error() {
    let err = resolve_dialect("klingon").unwrap_err();
    assert_eq!(err.kind(), ErrorKind::ParseError);
    assert!(resolve_dialect("").is_err());
    assert!(resolve_dialect("ansii").is_err());
}

#[test]
fn known_dialect_names_resolve() {
    for name in [
        "generic",
        "mysql",
        "postgresql",
        "postgres",
        "hive",
        "sqlite",
        "snowflake",
        "redshift",
        "mssql",
        "clickhouse",
        "bigquery",
        "ansi",
        "duckdb",
        "databricks",
        "spark",
        "sparksql",
    ] {
        assert!(resolve_dialect(name).is_ok());
    }
}

#[test]
fn dialect_names_resolve_in_any_ascii_case() {
    assert!(resolve_dialect("ANSI").is_ok());
    assert!(resolve_dialect("Ansi").is_ok());
    assert!(resolve_dialect("PostgreSQL").is_ok());
    assert!(resolve_dialect("GENERIC").is_ok());
}

#[test]
fn malformed_sql_is_a_parse_error() {
    let ctx = SessionContext::new();
    let state = ctx.state();
    let dialect = resolve_dialect("ansi").unwrap();
    let err = parse_statement(&state, "selecty selecty", &dialect).unwrap_err();
    assert_eq!(err.kind(), ErrorKind::ParseError);
}

#[test]
fn csv_output_round_trips_through_the_csv_loader() {
    runtime().block_on(async {
        let ctx = SessionContext::new();
        ctx.register_batch("t0", people_batch()).unwrap();
        let batches = run_query(&ctx, "select id, name from t0 order by id", "ansi").await;
        let schema = batches[0].schema();

        let mut buf: Vec<u8> = Vec::new();
        {
            let mut writer = datafusion::arrow::csv::Writer::new(&mut buf);
            for batch in &batches {
                writer.write(batch).unwrap();
            }
        }
        let text = String::from_utf8(buf.clone()).unwrap();
        assert!(text.starts_with("id,name\n"));

        let cursor = std::io::Cursor::new(buf);
        let reader = datafusion::arrow::csv::ReaderBuilder::new(schema)
            .with_header(true)
            .build(cursor)
            .unwrap();
        let reloaded: Vec<RecordBatch> = reader.map(|b| b.unwrap()).collect();
        let rows: usize = reloaded.iter().map(|b| b.num_rows()).sum();
        assert_eq!(rows, 2);
        assert_eq!(reloaded[0], batches[0]);
    });
}

#[test]
fn parquet_output_preserves_the_logical_schema() {
    runtime().block_on(async {
        let ctx = SessionContext::new();
        ctx.register_batch("t0", people_batch()).unwrap();
        let state = ctx.state();
        let dialect = resolve_dialect("ansi").unwrap();
        let statement =
            parse_statement(&state, "select id, name from t0 order by id", &dialect).unwrap();
        let plan = state.statement_to_plan(statement).await.unwrap();
        check_policy(&plan).unwrap();
        let optimized = optimize_plan(&state, &plan).unwrap();
        let dataframe = ctx.execute_logical_plan(optimized).await.unwrap();

        let plan_schema = Arc::new(dataframe.schema().as_arrow().clone());
        let batches = dataframe.collect().await.unwrap();
        let mut buf: Vec<u8> = Vec::new();
        {
            let mut writer = datafusion::parquet::arrow::ArrowWriter::try_new(
                &mut buf,
                plan_schema.clone(),
                None,
            )
            .unwrap();
            for batch in &batches {
                writer.write(batch).unwrap();
            }
            writer.close().unwrap();
        }

        let reader = datafusion::parquet::arrow::arrow_reader::ParquetRecordBatchReaderBuilder::try_new(
            bytes::Bytes::from(buf),
        )
        .unwrap();
        let written_schema = reader.schema().clone();
        assert_eq!(written_schema.fields().len(), plan_schema.fields().len());
        for (written, planned) in written_schema.fields().iter().zip(plan_schema.fields().iter()) {
            assert_eq!(written.name(), planned.name());
            assert_eq!(written.data_type(), planned.data_type());
        }
    });
}

#[test]
fn empty_result_set_pretty_prints_a_header_only_table() {
    let schema = Arc::new(Schema::new(vec![
        Field::new("id", DataType::Int64, false),
        Field::new("name", DataType::Utf8, false),
    ]));
    let empty = RecordBatch::new_empty(schema);
    let table = datafusion::arrow::util::pretty::pretty_format_batches(&[empty])
        .unwrap()
        .to_string();
    assert!(table.contains("id"));
    assert!(table.contains("name"));
    // A border, the header line, a border closing the header, and a border
    // closing the (empty) body: no data rows in between.
    assert_eq!(table.lines().count(), 4);
}
