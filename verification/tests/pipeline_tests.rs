use sql_logic_test::db::Sqlite;
use sql_logic_test::logic_tests::{
    classify, flatten_rows, mismatches, validate, LogicTestError, Query,
};
use sql_logic_test::text::str_contains;
use sql_logic_test::{
    comparison_mode, normalize_record, run_record, run_records, run_script, run_sql, validator,
    ComparisonMode, DbOutput, FailureKind, Outcome, SortMode, TestError, TestRecord, TestResult,
};

fn setup_sqlite() -> Sqlite {
    let sqlite = Sqlite::new();
    sqlite
        .execute("CREATE TABLE test (id INTEGER PRIMARY KEY, name TEXT)")
        .unwrap();
    sqlite
        .execute("INSERT INTO test (name) VALUES ('test')")
        .unwrap();
    sqlite
}

fn owned(lines: &[&str]) -> Vec<String> {
    lines.iter().map(|s| s.to_string()).collect()
}

#[test]
fn basic() {
    let mut db = Sqlite::new();
    let script = "statement ok\nCREATE TABLE t (id INTEGER)\n\nstatement ok\nINSERT INTO t VALUES (1)\n\nquery I\nSELECT * FROM t\n----\n1\n\n";
    let result = run_script(&mut db, "basic".to_owned(), script);
    assert_eq!(result.parse_errors.len(), 0);
    assert_eq!(result.test_erros.len(), 0);
    assert_eq!(result.skip_records.len(), 0);
    assert!(result.success_records.len() >= 3);
}

#[test]
fn classifier_case_insensitive() {
    assert_eq!(classify("select * from t"), Some(Query::Select));
    assert_eq!(classify("SELECT * FROM T"), Some(Query::Select));
    assert_eq!(classify("Select 1"), Some(Query::Select));
    assert_eq!(classify("insert into t values (1)"), Some(Query::Other));
}

#[test]
fn classifier_needs_a_token() {
    assert_eq!(classify(""), None);
    assert_eq!(classify(" \t\n"), None);
    assert_eq!(classify("  select 1"), Some(Query::Select));
    assert_eq!(classify("selects 1"), Some(Query::Other));
}

#[test]
fn normalizer_is_a_pure_function() {
    let condensed = owned(&["3 values hashing to abc123"]);
    let first = comparison_mode(&condensed);
    let second = comparison_mode(&condensed);
    assert_eq!(first, second);
    assert_eq!(first, ComparisonMode::CondensedHash);

    let literal = owned(&["1", "test"]);
    assert_eq!(comparison_mode(&literal), ComparisonMode::Exact);
    // Two lines never condense, even when one holds the marker.
    let two = owned(&["3 values hashing to abc123", "extra"]);
    assert_eq!(comparison_mode(&two), ComparisonMode::Exact);
}

#[test]
fn contains_marker() {
    assert!(str_contains("3 values hashing to abc123", "values hashing to"));
    assert!(!str_contains("three values hashed to abc", "values hashing to"));
    assert!(str_contains("anything", ""));
    assert!(!str_contains("", "a"));
}

#[test]
fn validate_length_mismatch_fails() {
    let actual = vec![owned(&["1", "2"])];
    let expected = owned(&["1"]);
    assert!(!validate(ComparisonMode::Exact, &actual, &expected));
    let empty: Vec<Vec<String>> = vec![];
    assert!(!validate(ComparisonMode::Exact, &empty, &expected));
}

#[test]
fn validate_exact_is_pointwise() {
    let actual = vec![owned(&["1", "2"]), owned(&["3"])];
    assert!(validate(ComparisonMode::Exact, &actual, &owned(&["1", "2", "3"])));
    assert!(!validate(ComparisonMode::Exact, &actual, &owned(&["1", "2", "4"])));
    let none: Vec<Vec<String>> = vec![];
    let nothing: Vec<String> = vec![];
    assert!(validate(ComparisonMode::Exact, &none, &nothing));
}

#[test]
fn validate_condensed_reads_first_cell_only() {
    let expected = owned(&["2 values hashing to abc"]);
    let one = vec![owned(&["2 values hashing to abc"])];
    assert!(validate(ComparisonMode::CondensedHash, &one, &expected));
    // Extra rows and cells are disregarded.
    let many = vec![owned(&["2 values hashing to abc", "x"]), owned(&["y"])];
    assert!(validate(ComparisonMode::CondensedHash, &many, &expected));
    let wrong = vec![owned(&["something else"])];
    assert!(!validate(ComparisonMode::CondensedHash, &wrong, &expected));
    let empty: Vec<Vec<String>> = vec![];
    assert!(!validate(ComparisonMode::CondensedHash, &empty, &expected));
}

#[test]
fn validators_differ_on_condensed_shape() {
    // The pipeline's validator condenses on the expected lines alone;
    // the crate-root validator also asks for exactly one actual row.
    let expected = owned(&["1 values hashing to h"]);
    let two_rows = vec![owned(&["1 values hashing to h"]), owned(&["extra"])];
    assert!(sql_logic_test::logic_tests::validator(&two_rows, &expected));
    assert!(!validator(&two_rows, &expected));
    let one_row = vec![owned(&["1 values hashing to h"])];
    assert!(sql_logic_test::logic_tests::validator(&one_row, &expected));
    assert!(validator(&one_row, &expected));
}

#[test]
fn mismatches_are_exhaustive() {
    let actual = owned(&["1", "b", "3", "d"]);
    let expected = owned(&["1", "2", "3", "4"]);
    let pairs = mismatches(&actual, &expected);
    assert_eq!(
        pairs,
        vec![
            ("b".to_owned(), "2".to_owned()),
            ("d".to_owned(), "4".to_owned())
        ]
    );
}

#[test]
fn normalize_record_drops_value_sort() {
    let rec = TestRecord::Query {
        sql: "SELECT 1".to_owned(),
        expected_results: owned(&["1"]),
        sort_mode: Some(SortMode::ValueSort),
    };
    assert_eq!(normalize_record(rec), None);
    let kept = TestRecord::Statement {
        sql: "SELECT 1".to_owned(),
    };
    assert_eq!(normalize_record(kept.clone()), Some(kept));
}

#[test]
fn run_sql_routes_by_first_token() {
    let mut db = setup_sqlite();
    let rows = match run_sql(&mut db, "SELECT * FROM test") {
        Ok(DbOutput::Rows(rows)) => rows,
        other => panic!("expected rows, got {other:?}"),
    };
    assert_eq!(rows, vec![owned(&["1", "test"])]);
    assert_eq!(
        run_sql(&mut db, "INSERT INTO test (name) VALUES ('x')"),
        Ok(DbOutput::StatementComplete)
    );
}

#[test]
fn scenario_exact_success() {
    let mut db = setup_sqlite();
    let rec = TestRecord::Query {
        sql: "SELECT * FROM test".to_owned(),
        expected_results: owned(&["1", "test"]),
        sort_mode: None,
    };
    let outcome = run_record(&mut db, rec);
    assert!(matches!(outcome, Outcome::Success(_)));
}

#[test]
fn scenario_exact_mismatch() {
    let mut db = setup_sqlite();
    let rec = TestRecord::Query {
        sql: "SELECT * FROM test".to_owned(),
        expected_results: owned(&["1", "wrong"]),
        sort_mode: None,
    };
    let outcome = run_record(&mut db, rec);
    let error = match outcome {
        Outcome::Mismatch(error) => error,
        other => panic!("expected a mismatch, got {other:?}"),
    };
    assert_eq!(error.kind, FailureKind::ValidationMismatch);
    assert_eq!(error.actual, vec![owned(&["1", "test"])]);
    let flat = flatten_rows(&error.actual);
    let pairs = mismatches(&flat, &error.expected);
    assert_eq!(pairs, vec![("test".to_owned(), "wrong".to_owned())]);
}

#[test]
fn scenario_condensed_success() {
    let mut db = Sqlite::new();
    let rec = TestRecord::Query {
        sql: "SELECT '3 values hashing to abc123'".to_owned(),
        expected_results: owned(&["3 values hashing to abc123"]),
        sort_mode: None,
    };
    let outcome = run_record(&mut db, rec);
    assert!(matches!(outcome, Outcome::Success(_)));
}

#[test]
fn scenario_value_sort_skipped() {
    let mut db = Sqlite::new();
    let rec = TestRecord::Query {
        sql: "SELECT * FROM nowhere".to_owned(),
        expected_results: owned(&["1"]),
        sort_mode: Some(SortMode::ValueSort),
    };
    let outcome = run_record(&mut db, rec.clone());
    assert_eq!(outcome, Outcome::Skipped(rec.clone()));

    let report = run_records(&mut db, vec![rec], "skips".to_owned());
    assert_eq!(report.skip_records.len(), 1);
    assert_eq!(report.success_records.len(), 0);
    assert_eq!(report.test_erros.len(), 0);
}

#[test]
fn script_value_sort_is_skipped() {
    let mut db = Sqlite::new();
    let script = "query I valuesort\nSELECT 1\n----\n1\n\n";
    let result = run_script(&mut db, "valuesort".to_owned(), script);
    assert_eq!(result.parse_errors.len(), 0);
    assert_eq!(result.skip_records.len(), 1);
    assert_eq!(result.test_erros.len(), 0);

    let mut db2 = Sqlite::new();
    let script2 = "query I rowsort\nSELECT 1\n----\n1\n\n";
    let result2 = run_script(&mut db2, "rowsort".to_owned(), script2);
    assert_eq!(result2.parse_errors.len(), 0);
    assert_eq!(result2.skip_records.len(), 0);
    assert_eq!(result2.test_erros.len(), 0);
}

#[test]
fn scenario_parse_failure() {
    let mut db = Sqlite::new();
    let result = run_script(&mut db, "bad".to_owned(), "this is not a directive\n");
    assert_eq!(result.parse_errors.len(), 1);
    assert_eq!(result.success_records.len(), 0);
    assert_eq!(result.skip_records.len(), 0);
    assert_eq!(result.test_erros.len(), 0);
}

#[test]
fn backend_failures_are_tagged() {
    let mut db = Sqlite::new();
    let statement = TestRecord::Statement {
        sql: "CREATE GARBAGE".to_owned(),
    };
    match run_record(&mut db, statement) {
        Outcome::Mismatch(error) => assert_eq!(error.kind, FailureKind::BackendExecuteFailure),
        other => panic!("expected a mismatch, got {other:?}"),
    }
    let query = TestRecord::Query {
        sql: "SELECT * FROM missing_table".to_owned(),
        expected_results: owned(&["1"]),
        sort_mode: None,
    };
    match run_record(&mut db, query) {
        Outcome::Mismatch(error) => assert_eq!(error.kind, FailureKind::BackendQueryFailure),
        other => panic!("expected a mismatch, got {other:?}"),
    }
    let empty = TestRecord::Statement {
        sql: "   ".to_owned(),
    };
    match run_record(&mut db, empty) {
        Outcome::Mismatch(error) => assert_eq!(error.kind, FailureKind::MalformedRecord),
        other => panic!("expected a mismatch, got {other:?}"),
    }
}

#[test]
fn report_percentage() {
    let mut report = TestResult::new("file".to_owned());
    assert_eq!(report.success_percent_hundredths(), None);
    report.append_success(TestRecord::Other);
    report.append_success(TestRecord::Other);
    report.append_test_error(TestError {
        kind: FailureKind::ValidationMismatch,
        actual: vec![],
        expected: vec![],
        record: TestRecord::Other,
    });
    // 2 of 3 judged: 66.66%, in hundredths of a percent.
    assert_eq!(report.success_percent_hundredths(), Some(6666));
    report.append_skip(TestRecord::Other);
    // Skipped records are never judged and leave the percentage alone.
    assert_eq!(report.success_percent_hundredths(), Some(6666));
}

#[test]
fn report_summary_line() {
    let mut report = TestResult::new("file".to_owned());
    assert_eq!(report.summary_line(), "no records were judged");
    report.append_success(TestRecord::Other);
    report.append_success(TestRecord::Other);
    report.append_test_error(TestError {
        kind: FailureKind::ValidationMismatch,
        actual: vec![],
        expected: vec![],
        record: TestRecord::Other,
    });
    report.append_skip(TestRecord::Other);
    assert_eq!(
        report.summary_line(),
        "66.66%, success: 2, fail: 1 / skip: 1 / parse_fail: 0"
    );
}

#[test]
fn error_messages() {
    assert_eq!(
        LogicTestError::FailedSelectQuery.message(),
        "failed select query"
    );
    assert_eq!(
        LogicTestError::FailedExecuteQuery.message(),
        "failed execute query"
    );
    assert_eq!(LogicTestError::EmptySql.message(), "empty sql");
}
