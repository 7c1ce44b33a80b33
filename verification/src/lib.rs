use vstd::prelude::*;

pub mod db;
pub mod text;

use logic_tests::{spec_classify, spec_comparison_mode, spec_validate, LogicTestError, Query};

verus! {

/// How the expected results of a query record are compared against the
/// rows the backend returned.
#[derive(Clone, Copy, Debug, PartialEq, Eq, Structural)]
pub enum ComparisonMode {
    /// Cell-by-cell comparison of the flattened actual rows against the
    /// expected lines.
    Exact,
    /// The expectation is a single "<count> values hashing to <digest>"
    /// line; only the first actual cell is compared against it, textually.
    CondensedHash,
}

/// The result normalizer: derive the comparison mode from the expected
/// lines alone. A single line holding "values hashing to" selects
/// `CondensedHash`; anything else selects `Exact`. The mode is a pure
/// function of the expected lines and is recomputed for every record.
pub fn comparison_mode(expected: &[String]) -> (m: ComparisonMode)
    ensures
        m == logic_tests::spec_comparison_mode(expected.deep_view()),
{
    if expected.len() == 1 {
        let c = text::str_contains(expected[0].as_str(), "values hashing to");
        proof {
            assert(expected.deep_view()[0] == expected@[0]@);
        }
        if c {
            ComparisonMode::CondensedHash
        } else {
            ComparisonMode::Exact
        }
    } else {
        proof {
            assert(expected.deep_view().len() == expected@.len());
        }
        ComparisonMode::Exact
    }
}

/// How the rows of a query's expected results were sorted by the
/// fixture, as declared on the record.
#[derive(Clone, Copy, Debug, PartialEq, Eq, Structural)]
pub enum SortMode {
    NoSort,
    RowSort,
    ValueSort,
}

/// A single already-parsed test unit.
///
/// `Statement` carries SQL to execute with no expected rows; `Query`
/// carries SQL to run together with its expected result lines and an
/// optional sort mode; `Other` stands for any further directive a
/// fixture may hold, which this pipeline treats as a side-effect-free
/// success.
#[derive(Clone, Debug, PartialEq)]
pub enum TestRecord {
    Statement { sql: String },
    Query { sql: String, expected_results: Vec<String>, sort_mode: Option<SortMode> },
    Other,
}

/// Whether a record asks for the order-insensitive "value sort"
/// comparison, which this pipeline does not support and skips.
pub open spec fn is_value_sort(r: TestRecord) -> bool {
    match r {
        TestRecord::Query { sort_mode, .. } => sort_mode == Some(SortMode::ValueSort),
        _ => false,
    }
}

/// `is_value_sort` as a predicate value, for filtering record sequences.
pub open spec fn value_sort_pred() -> spec_fn(TestRecord) -> bool {
    |r: TestRecord| is_value_sort(r)
}

/// Drop records whose comparison this pipeline does not support: a
/// "value sort" record is normalized away, every other record is kept
/// unchanged.
pub fn normalize_record(record: TestRecord) -> (r: Option<TestRecord>)
    ensures
        r == if is_value_sort(record) {
            None::<TestRecord>
        } else {
            Some(record)
        },
{
    let value_sort = match &record {
        TestRecord::Query { sort_mode, .. } => matches!(sort_mode, Some(SortMode::ValueSort)),
        _ => false,
    };
    if value_sort {
        None
    } else {
        Some(record)
    }
}

/// Which stage of judging a record failed.
#[derive(Clone, Copy, Debug, PartialEq, Eq, Structural)]
pub enum FailureKind {
    /// The backend rejected or failed a side-effecting statement.
    BackendExecuteFailure,
    /// The backend rejected or failed a row-producing query.
    BackendQueryFailure,
    /// The backend answered but its output did not match the expectation.
    ValidationMismatch,
    /// The record itself was malformed (empty SQL text).
    MalformedRecord,
}

/// A failed record, kept whole for diagnostics: the failure kind, the
/// rows the backend actually returned, the expected lines, and the
/// record itself.
#[derive(Clone, Debug, PartialEq)]
pub struct TestError {
    pub kind: FailureKind,
    pub actual: Vec<Vec<String>>,
    pub expected: Vec<String>,
    pub record: TestRecord,
}

/// The judgement of one record, or of a whole file that failed to parse.
#[derive(Clone, Debug, PartialEq)]
pub enum Outcome {
    Success(TestRecord),
    Mismatch(TestError),
    ParseFailure(String),
    Skipped(TestRecord),
}

/// The per-file report: counts and the literal failing records.
#[derive(Clone, Debug)]
pub struct TestResult {
    pub file_name: String,
    pub success_records: Vec<TestRecord>,
    pub skip_records: Vec<TestRecord>,
    pub test_erros: Vec<TestError>,
    pub parse_errors: Vec<String>,
}

impl TestResult {
    /// An empty report for one file.
    pub fn new(file_name: String) -> (r: TestResult)
        ensures
            r.file_name == file_name,
            r.success_records@ =~= Seq::<TestRecord>::empty(),
            r.skip_records@ =~= Seq::<TestRecord>::empty(),
            r.test_erros@ =~= Seq::<TestError>::empty(),
            r.parse_errors@ =~= Seq::<String>::empty(),
    {
        TestResult {
            file_name,
            success_records: Vec::new(),
            skip_records: Vec::new(),
            test_erros: Vec::new(),
            parse_errors: Vec::new(),
        }
    }

    pub fn append_success(&mut self, record: TestRecord)
        ensures
            final(self).success_records@ =~= old(self).success_records@.push(record),
            final(self).skip_records == old(self).skip_records,
            final(self).test_erros == old(self).test_erros,
            final(self).parse_errors == old(self).parse_errors,
            final(self).file_name == old(self).file_name,
    {
        self.success_records.push(record);
    }

    pub fn append_skip(&mut self, record: TestRecord)
        ensures
            final(self).skip_records@ =~= old(self).skip_records@.push(record),
            final(self).success_records == old(self).success_records,
            final(self).test_erros == old(self).test_erros,
            final(self).parse_errors == old(self).parse_errors,
            final(self).file_name == old(self).file_name,
    {
        self.skip_records.push(record);
    }

    pub fn append_test_error(&mut self, error: TestError)
        ensures
            final(self).test_erros@ =~= old(self).test_erros@.push(error),
            final(self).success_records == old(self).success_records,
            final(self).skip_records == old(self).skip_records,
            final(self).parse_errors == old(self).parse_errors,
            final(self).file_name == old(self).file_name,
    {
        self.test_erros.push(error);
    }

    pub fn append_parse_error(&mut self, error: String)
        ensures
            final(self).parse_errors@ =~= old(self).parse_errors@.push(error),
            final(self).success_records == old(self).success_records,
            final(self).skip_records == old(self).skip_records,
            final(self).test_erros == old(self).test_erros,
            final(self).file_name == old(self).file_name,
    {
        self.parse_errors.push(error);
    }

    /// How many records were actually judged: successes plus failures
    /// plus parse failures. Skipped records were never judged and do not
    /// count.
    pub open spec fn spec_judged(&self) -> nat {
        self.success_records@.len() + self.test_erros@.len() + self.parse_errors@.len()
    }

    /// The success percentage in hundredths of a percent, computed over
    /// the judged records only; `None` when nothing was judged.
    pub fn success_percent_hundredths(&self) -> (r: Option<u64>)
        ensures
            self.spec_judged() == 0 ==> r is None,
            self.spec_judged() > 0 ==> r == Some(
                (10000 * self.success_records@.len() / self.spec_judged()) as u64,
            ),
            r matches Some(h) ==> h <= 10000 && h == 10000 * self.success_records@.len()
                / self.spec_judged(),
    {
        let s = self.success_records.len() as u128;
        let f = self.test_erros.len() as u128;
        let p = self.parse_errors.len() as u128;
        let denom = s + f + p;
        if denom == 0 {
            None
        } else {
            let q = (10000 * s) / denom;
            proof {
                assert(10000 * (s as int) <= 10000 * (denom as int)) by (nonlinear_arith)
                    requires
                        s <= denom,
                ;
                assert(10000 * (s as int) / (denom as int) <= 10000) by (nonlinear_arith)
                    requires
                        denom > 0,
                        10000 * (s as int) <= 10000 * (denom as int),
                ;
            }
            Some(q as u64)
        }
    }
}

/// The summary line rendered for given success, failure, skip and
/// parse-failure counts: the success percentage over the judged records
/// in hundredths precision, then the four counts.
pub open spec fn spec_summary_line(s: nat, f: nat, k: nat, p: nat) -> Seq<char> {
    if s + f + p == 0 {
        "no records were judged"@
    } else {
        let h = 10000 * s / (s + f + p);
        text::spec_decimal(h / 100) + "."@ + seq![
            text::spec_digit(h % 100 / 10),
            text::spec_digit(h % 100 % 10),
        ] + "%, success: "@ + text::spec_decimal(s) + ", fail: "@ + text::spec_decimal(f)
            + " / skip: "@ + text::spec_decimal(k) + " / parse_fail: "@ + text::spec_decimal(p)
    }
}

impl TestResult {
    /// The one-line human-readable rendering of this report.
    pub fn summary_line(&self) -> (r: String)
        ensures
            r@ == spec_summary_line(
                self.success_records@.len(),
                self.test_erros@.len(),
                self.skip_records@.len(),
                self.parse_errors@.len(),
            ),
    {
        match self.success_percent_hundredths() {
            None => String::from_str("no records were judged"),
            Some(h) => {
                let frac = h % 100;
                let mut r = text::u64_to_decimal(h / 100);
                r.append(".");
                r.append(text::u64_to_decimal(frac / 10 % 10).as_str());
                r.append(text::u64_to_decimal(frac % 10).as_str());
                r.append("%, success: ");
                r.append(text::u64_to_decimal(self.success_records.len() as u64).as_str());
                r.append(", fail: ");
                r.append(text::u64_to_decimal(self.test_erros.len() as u64).as_str());
                r.append(" / skip: ");
                r.append(text::u64_to_decimal(self.skip_records.len() as u64).as_str());
                r.append(" / parse_fail: ");
                r.append(text::u64_to_decimal(self.parse_errors.len() as u64).as_str());
                proof {
                    assert(r@ =~= spec_summary_line(
                        self.success_records@.len(),
                        self.test_erros@.len(),
                        self.skip_records@.len(),
                        self.parse_errors@.len(),
                    ));
                }
                r
            },
        }
    }
}

/// The normalizer is a pure function of the expected lines: any two
/// modes computed from the same lines are equal, so judging the same
/// record twice chooses the same comparison mode both times, and no
/// mode ever leaks from one record into the next.
pub proof fn lemma_normalizer_deterministic(
    expected: Seq<Seq<char>>,
    m1: ComparisonMode,
    m2: ComparisonMode,
)
    requires
        m1 == spec_comparison_mode(expected),
        m2 == spec_comparison_mode(expected),
    ensures
        m1 == m2,
{
}

/// The backend adapter contract: one exclusive session against a
/// database, offering a side-effecting execute and a row-producing
/// query, each fallible with a textual reason. Nothing is assumed of an
/// implementation; the pipeline states what holds whatever a backend
/// returns.
pub trait Backend {
    /// Run a statement from which no rows are expected.
    fn execute(&mut self, sql: &str) -> Result<(), String>;

    /// Run a query; cells come back row by row in the backend's
    /// canonical text form.
    fn query(&mut self, sql: &str) -> Result<Vec<Vec<String>>, String>;
}

/// What the backend dispatch returned: rows for a query, or the bare
/// completion of a statement.
#[derive(Clone, Debug, PartialEq)]
pub enum DbOutput {
    Rows(Vec<Vec<String>>),
    StatementComplete,
}

/// The failure kind under which a dispatch error is reported.
pub open spec fn spec_failure_kind(e: LogicTestError) -> FailureKind {
    match e {
        LogicTestError::FailedSelectQuery => FailureKind::BackendQueryFailure,
        LogicTestError::FailedExecuteQuery => FailureKind::BackendExecuteFailure,
        LogicTestError::EmptySql => FailureKind::MalformedRecord,
    }
}

pub fn failure_kind(e: LogicTestError) -> (k: FailureKind)
    ensures
        k == spec_failure_kind(e),
{
    match e {
        LogicTestError::FailedSelectQuery => FailureKind::BackendQueryFailure,
        LogicTestError::FailedExecuteQuery => FailureKind::BackendExecuteFailure,
        LogicTestError::EmptySql => FailureKind::MalformedRecord,
    }
}

/// How one record together with the backend's answer determines its
/// outcome.
///
/// A "value sort" record is skipped whatever the answer, since it never
/// reaches the backend. Any directive other than a statement or a query
/// is a no-op success. A statement succeeds when the backend accepted
/// it. A query's rows are judged by the validator under the mode chosen
/// from its expected lines; a query answered by a bare statement
/// completion is judged as zero rows.
pub open spec fn judge_rel(
    record: TestRecord,
    resp: Result<DbOutput, LogicTestError>,
    r: Outcome,
) -> bool {
    if is_value_sort(record) {
        r == Outcome::Skipped(record)
    } else {
        match record {
            TestRecord::Other => r == Outcome::Success(record),
            TestRecord::Statement { .. } => match resp {
                Ok(_) => r == Outcome::Success(record),
                Err(e) => {
                    &&& r matches Outcome::Mismatch(te)
                    &&& te.kind == spec_failure_kind(e)
                    &&& te.record == record
                    &&& te.actual@.len() == 0
                    &&& te.expected@.len() == 0
                },
            },
            TestRecord::Query { sql: _, expected_results, sort_mode: _ } => {
                let mode = spec_comparison_mode(expected_results.deep_view());
                match resp {
                    Err(e) => {
                        &&& r matches Outcome::Mismatch(te)
                        &&& te.kind == spec_failure_kind(e)
                        &&& te.record == record
                        &&& te.actual@.len() == 0
                        &&& te.expected@ == expected_results@
                    },
                    Ok(DbOutput::Rows(rows)) => {
                        if spec_validate(mode, rows.deep_view(), expected_results.deep_view()) {
                            r == Outcome::Success(record)
                        } else {
                            &&& r matches Outcome::Mismatch(te)
                            &&& te.kind == FailureKind::ValidationMismatch
                            &&& te.record == record
                            &&& te.actual == rows
                            &&& te.expected@ == expected_results@
                        }
                    },
                    Ok(DbOutput::StatementComplete) => {
                        if spec_validate(
                            mode,
                            Seq::<Seq<Seq<char>>>::empty(),
                            expected_results.deep_view(),
                        ) {
                            r == Outcome::Success(record)
                        } else {
                            &&& r matches Outcome::Mismatch(te)
                            &&& te.kind == FailureKind::ValidationMismatch
                            &&& te.record == record
                            &&& te.actual@.len() == 0
                            &&& te.expected@ == expected_results@
                        }
                    },
                }
            },
        }
    }
}

/// Judge one record given the backend's answer. This is a pure
/// function: every decision the pipeline takes after the backend call
/// is made here, and `judge_rel` pins it down.
pub fn judge(record: TestRecord, resp: Result<DbOutput, LogicTestError>) -> (r: Outcome)
    ensures
        judge_rel(record, resp, r),
{
    let value_sort = match &record {
        TestRecord::Query { sort_mode, .. } => matches!(sort_mode, Some(SortMode::ValueSort)),
        _ => false,
    };
    if value_sort {
        return Outcome::Skipped(record);
    }
    match record {
        TestRecord::Other => Outcome::Success(TestRecord::Other),
        TestRecord::Statement { sql } => match resp {
            Ok(_) => Outcome::Success(TestRecord::Statement { sql }),
            Err(e) => Outcome::Mismatch(
                TestError {
                    kind: failure_kind(e),
                    actual: Vec::new(),
                    expected: Vec::new(),
                    record: TestRecord::Statement { sql },
                },
            ),
        },
        TestRecord::Query { sql, expected_results, sort_mode } => {
            let exp_slice = expected_results.as_slice();
            proof {
                assert(exp_slice.deep_view() =~= expected_results.deep_view());
            }
            let mode = comparison_mode(exp_slice);
            match resp {
                Err(e) => Outcome::Mismatch(
                    TestError {
                        kind: failure_kind(e),
                        actual: Vec::new(),
                        expected: expected_results.clone(),
                        record: TestRecord::Query { sql, expected_results, sort_mode },
                    },
                ),
                Ok(DbOutput::Rows(rows)) => {
                    let row_slice = rows.as_slice();
                    let exp_slice2 = expected_results.as_slice();
                    proof {
                        assert(row_slice.deep_view() =~= rows.deep_view());
                        assert(exp_slice2.deep_view() =~= expected_results.deep_view());
                    }
                    let ok = logic_tests::validate(mode, row_slice, exp_slice2);
                    if ok {
                        Outcome::Success(TestRecord::Query { sql, expected_results, sort_mode })
                    } else {
                        Outcome::Mismatch(
                            TestError {
                                kind: FailureKind::ValidationMismatch,
                                actual: rows,
                                expected: expected_results.clone(),
                                record: TestRecord::Query { sql, expected_results, sort_mode },
                            },
                        )
                    }
                },
                Ok(DbOutput::StatementComplete) => {
                    let empty_rows: Vec<Vec<String>> = Vec::new();
                    let empty_slice = empty_rows.as_slice();
                    let exp_slice3 = expected_results.as_slice();
                    proof {
                        assert(empty_slice.deep_view() =~= Seq::<Seq<Seq<char>>>::empty());
                        assert(exp_slice3.deep_view() =~= expected_results.deep_view());
                    }
                    let ok = logic_tests::validate(mode, empty_slice, exp_slice3);
                    if ok {
                        Outcome::Success(TestRecord::Query { sql, expected_results, sort_mode })
                    } else {
                        Outcome::Mismatch(
                            TestError {
                                kind: FailureKind::ValidationMismatch,
                                actual: empty_rows,
                                expected: expected_results.clone(),
                                record: TestRecord::Query { sql, expected_results, sort_mode },
                            },
                        )
                    }
                },
            }
        },
    }
}

/// The successfully judged records among a sequence of outcomes, in
/// order.
pub open spec fn success_payloads(os: Seq<Outcome>) -> Seq<TestRecord>
    decreases os.len(),
{
    if os.len() == 0 {
        Seq::empty()
    } else {
        success_payloads(os.drop_last()) + (match os.last() {
            Outcome::Success(t) => seq![t],
            _ => Seq::empty(),
        })
    }
}

/// The failures among a sequence of outcomes, in order.
pub open spec fn mismatch_payloads(os: Seq<Outcome>) -> Seq<TestError>
    decreases os.len(),
{
    if os.len() == 0 {
        Seq::empty()
    } else {
        mismatch_payloads(os.drop_last()) + (match os.last() {
            Outcome::Mismatch(te) => seq![te],
            _ => Seq::empty(),
        })
    }
}

/// The skipped records among a sequence of outcomes, in order.
pub open spec fn skip_payloads(os: Seq<Outcome>) -> Seq<TestRecord>
    decreases os.len(),
{
    if os.len() == 0 {
        Seq::empty()
    } else {
        skip_payloads(os.drop_last()) + (match os.last() {
            Outcome::Skipped(t) => seq![t],
            _ => Seq::empty(),
        })
    }
}

/// Whether the report `r` is exactly the rollup of one outcome per
/// record: each outcome judged from some backend answer, and the
/// report's three lists the ordered projections of those outcomes.
/// The SQL text a record hands to the backend dispatch, or `None` for
/// a record that is never dispatched (a skipped "value sort" query, or
/// a directive that is neither statement nor query).
pub open spec fn dispatch_sql(record: TestRecord) -> Option<Seq<char>> {
    if is_value_sort(record) {
        None
    } else {
        match record {
            TestRecord::Statement { sql } => Some(sql@),
            TestRecord::Query { sql, .. } => Some(sql@),
            TestRecord::Other => None,
        }
    }
}

/// The shapes a backend answer for `record` can take, as `run_sql`
/// guarantees them: token-less SQL is rejected as `EmptySql` without
/// touching the backend, a Select-classified text yields rows or a
/// query failure, and any other text yields a bare completion or an
/// execute failure. A record that is never dispatched constrains
/// nothing.
pub open spec fn resp_shape(record: TestRecord, resp: Result<DbOutput, LogicTestError>) -> bool {
    match dispatch_sql(record) {
        None => true,
        Some(s) => match spec_classify(s) {
            None => resp == Err::<DbOutput, LogicTestError>(LogicTestError::EmptySql),
            Some(Query::Select) => resp matches Ok(DbOutput::Rows(_)) || resp == Err::<
                DbOutput,
                LogicTestError,
            >(LogicTestError::FailedSelectQuery),
            Some(Query::Other) => resp == Ok::<DbOutput, LogicTestError>(
                DbOutput::StatementComplete,
            ) || resp == Err::<DbOutput, LogicTestError>(LogicTestError::FailedExecuteQuery),
        },
    }
}

/// One record fully accounted for: some backend answer of the shape
/// the dispatch can produce, judged into this outcome.
pub open spec fn judged_with_shape(
    record: TestRecord,
    resp: Result<DbOutput, LogicTestError>,
    outcome: Outcome,
) -> bool {
    resp_shape(record, resp) && judge_rel(record, resp, outcome)
}

pub open spec fn report_matches_outcomes(
    records: Seq<TestRecord>,
    r: TestResult,
    os: Seq<Outcome>,
    resps: Seq<Result<DbOutput, LogicTestError>>,
) -> bool {
    &&& os.len() == records.len()
    &&& resps.len() == records.len()
    &&& (forall|i: int|
        #![trigger os[i]]
        0 <= i < os.len() ==> judged_with_shape(records[i], resps[i], os[i]))
    &&& r.success_records@ == success_payloads(os)
    &&& r.test_erros@ == mismatch_payloads(os)
    &&& r.skip_records@ == skip_payloads(os)
}

/// Dispatch one SQL instruction to the backend: the first token decides
/// whether it is routed to `query` or to `execute`, and each backend
/// failure is tagged with the operation that failed. Text without any
/// token is rejected as `EmptySql` without touching the backend.
pub fn run_sql<B: Backend>(db: &mut B, sql: &str) -> (r: Result<DbOutput, LogicTestError>)
    ensures
        spec_classify(sql@) is None ==> r == Err::<DbOutput, LogicTestError>(
            LogicTestError::EmptySql,
        ),
        spec_classify(sql@) == Some(Query::Select) ==> (r matches Ok(DbOutput::Rows(_)) || r
            == Err::<DbOutput, LogicTestError>(LogicTestError::FailedSelectQuery)),
        spec_classify(sql@) == Some(Query::Other) ==> (r == Ok::<DbOutput, LogicTestError>(
            DbOutput::StatementComplete,
        ) || r == Err::<DbOutput, LogicTestError>(LogicTestError::FailedExecuteQuery)),
{
    match logic_tests::classify(sql) {
        None => Err(LogicTestError::EmptySql),
        Some(Query::Select) => match db.query(sql) {
            Ok(rows) => Ok(DbOutput::Rows(rows)),
            Err(_) => Err(LogicTestError::FailedSelectQuery),
        },
        Some(Query::Other) => match db.execute(sql) {
            Ok(_) => Ok(DbOutput::StatementComplete),
            Err(_) => Err(LogicTestError::FailedExecuteQuery),
        },
    }
}

/// Run one record through the pipeline: a "value sort" record is
/// skipped without touching the backend; any other statement or query
/// is dispatched and its answer judged by `judge`.
pub fn run_record<B: Backend>(db: &mut B, record: TestRecord) -> (r: Outcome)
    ensures
        exists|resp: Result<DbOutput, LogicTestError>| judged_with_shape(record, resp, r),
        is_value_sort(record) ==> r == Outcome::Skipped(record),
        !is_value_sort(record) ==> !(r matches Outcome::Skipped(_)),
        !(r matches Outcome::ParseFailure(_)),
        record matches TestRecord::Other ==> r == Outcome::Success(record),
        r matches Outcome::Success(done) ==> done == record,
        r matches Outcome::Mismatch(te) ==> te.record == record,
{
    let value_sort = match &record {
        TestRecord::Query { sort_mode, .. } => matches!(sort_mode, Some(SortMode::ValueSort)),
        _ => false,
    };
    if value_sort {
        proof {
            let resp = Ok::<DbOutput, LogicTestError>(DbOutput::StatementComplete);
            assert(judged_with_shape(record, resp, Outcome::Skipped(record)));
        }
        return Outcome::Skipped(record);
    }
    let resp = match &record {
        TestRecord::Statement { sql } => Some(run_sql(db, sql.as_str())),
        TestRecord::Query { sql, .. } => Some(run_sql(db, sql.as_str())),
        TestRecord::Other => None,
    };
    match resp {
        Some(resp) => {
            proof {
                assert(resp_shape(record, resp));
            }
            let outcome = judge(record, resp);
            proof {
                assert(judged_with_shape(record, resp, outcome));
            }
            outcome
        },
        None => {
            proof {
                let witness = Ok::<DbOutput, LogicTestError>(DbOutput::StatementComplete);
                assert(judged_with_shape(record, witness, Outcome::Success(record)));
            }
            Outcome::Success(record)
        },
    }
}

/// Drive a sequence of already-parsed records against the backend, in
/// order, collecting one outcome per record into a fresh report. A
/// record's failure never stops the loop.
pub fn run_records<B: Backend>(db: &mut B, records: Vec<TestRecord>, file_name: String) -> (r:
    TestResult)
    ensures
        r.file_name == file_name,
        r.parse_errors@.len() == 0,
        r.success_records@.len() + r.skip_records@.len() + r.test_erros@.len() == records@.len(),
        forall|i: int|
            0 <= i < records@.len() && is_value_sort(#[trigger] records@[i])
                ==> r.skip_records@.contains(records@[i]),
        forall|i: int| 0 <= i < r.skip_records@.len() ==> is_value_sort(#[trigger] r.skip_records@[i]),
        forall|i: int|
            0 <= i < r.success_records@.len() ==> !is_value_sort(#[trigger] r.success_records@[i]),
        forall|i: int|
            0 <= i < r.test_erros@.len() ==> !is_value_sort(#[trigger] r.test_erros@[i].record),
        r.skip_records@ == records@.filter(value_sort_pred()),
        exists|os: Seq<Outcome>, resps: Seq<Result<DbOutput, LogicTestError>>|
            report_matches_outcomes(records@, r, os, resps),
{
    let ghost orig = records@;
    let mut remaining = records;
    let ghost mut os = Seq::<Outcome>::empty();
    let ghost mut resps = Seq::<Result<DbOutput, LogicTestError>>::empty();
    let mut result = TestResult::new(file_name);
    proof {
        assert(success_payloads(os) =~= Seq::<TestRecord>::empty());
        assert(mismatch_payloads(os) =~= Seq::<TestError>::empty());
        assert(skip_payloads(os) =~= Seq::<TestRecord>::empty());
    }
    while remaining.len() > 0
        invariant
            remaining@.len() <= orig.len(),
            remaining@ =~= orig.skip(orig.len() - remaining@.len()),
            result.file_name == file_name,
            result.parse_errors@.len() == 0,
            result.success_records@.len() + result.skip_records@.len() + result.test_erros@.len()
                == orig.len() - remaining@.len(),
            forall|i: int|
                0 <= i < orig.len() - remaining@.len() && is_value_sort(#[trigger] orig[i])
                    ==> result.skip_records@.contains(orig[i]),
            forall|i: int|
                0 <= i < result.skip_records@.len() ==> is_value_sort(
                    #[trigger] result.skip_records@[i],
                ),
            forall|i: int|
                0 <= i < result.success_records@.len() ==> !is_value_sort(
                    #[trigger] result.success_records@[i],
                ),
            forall|i: int|
                0 <= i < result.test_erros@.len() ==> !is_value_sort(
                    #[trigger] result.test_erros@[i].record,
                ),
            result.skip_records@ == orig.take(orig.len() - remaining@.len()).filter(
                value_sort_pred(),
            ),
            os.len() == orig.len() - remaining@.len(),
            resps.len() == os.len(),
            forall|i: int|
                #![trigger os[i]]
                0 <= i < os.len() ==> judged_with_shape(orig[i], resps[i], os[i]),
            result.success_records@ == success_payloads(os),
            result.test_erros@ == mismatch_payloads(os),
            result.skip_records@ == skip_payloads(os),
        decreases remaining@.len(),
    {
        let ghost k = orig.len() - remaining@.len();
        let rec = remaining.remove(0);
        proof {
            assert(rec == orig[k]);
            assert(remaining@ =~= orig.skip(k + 1));
            reveal(Seq::filter);
            assert(orig.take(k + 1).drop_last() =~= orig.take(k));
            assert(orig.take(k + 1).last() == orig[k]);
            if is_value_sort(orig[k]) {
                assert(orig.take(k + 1).filter(value_sort_pred()) == orig.take(k).filter(
                    value_sort_pred(),
                ).push(orig[k]));
            } else {
                assert(orig.take(k + 1).filter(value_sort_pred()) == orig.take(k).filter(
                    value_sort_pred(),
                ));
            }
        }
        let outcome = run_record(db, rec);
        let ghost out_g = outcome;
        let ghost resp_g = choose|resp: Result<DbOutput, LogicTestError>|
            judged_with_shape(rec, resp, out_g);
        match outcome {
            Outcome::Success(done) => result.append_success(done),
            Outcome::Skipped(done) => {
                proof {
                    let resp = choose|resp: Result<DbOutput, LogicTestError>|
                        judge_rel(rec, resp, Outcome::Skipped(done));
                    assert(is_value_sort(rec));
                    assert(done == rec);
                }
                let ghost old_skip = result.skip_records@;
                result.append_skip(done);
                proof {
                    assert forall|i: int|
                        0 <= i < k + 1 && is_value_sort(#[trigger] orig[i]) implies result
                        .skip_records@.contains(orig[i]) by {
                        if i < k {
                            let j = choose|j: int|
                                0 <= j < old_skip.len() && old_skip[j] == orig[i];
                            assert(result.skip_records@[j] == orig[i]);
                        } else {
                            assert(result.skip_records@[old_skip.len() as int] == done);
                        }
                    }
                }
            },
            Outcome::Mismatch(te) => result.append_test_error(te),
            Outcome::ParseFailure(_) => {
                proof {
                    assert(false);
                }
            },
        }
        proof {
            let prev = os;
            os = prev.push(out_g);
            assert(os.drop_last() =~= prev);
            match out_g {
                Outcome::Success(t) => {
                    assert(success_payloads(os) =~= success_payloads(prev).push(t));
                    assert(mismatch_payloads(os) =~= mismatch_payloads(prev));
                    assert(skip_payloads(os) =~= skip_payloads(prev));
                },
                Outcome::Mismatch(te) => {
                    assert(success_payloads(os) =~= success_payloads(prev));
                    assert(mismatch_payloads(os) =~= mismatch_payloads(prev).push(te));
                    assert(skip_payloads(os) =~= skip_payloads(prev));
                },
                Outcome::Skipped(t) => {
                    assert(success_payloads(os) =~= success_payloads(prev));
                    assert(mismatch_payloads(os) =~= mismatch_payloads(prev));
                    assert(skip_payloads(os) =~= skip_payloads(prev).push(t));
                },
                Outcome::ParseFailure(_) => {
                    assert(false);
                },
            }
            let prev_resps = resps;
            resps = prev_resps.push(resp_g);
            assert(exists|resp: Result<DbOutput, LogicTestError>|
                judged_with_shape(rec, resp, out_g));
            assert(judged_with_shape(rec, resp_g, out_g));
            assert forall|i: int| #![trigger os[i]]
                0 <= i < os.len() implies judged_with_shape(orig[i], resps[i], os[i]) by {
                if i < prev.len() {
                    assert(os[i] == prev[i]);
                    assert(resps[i] == prev_resps[i]);
                } else {
                    assert(orig[i] == rec);
                    assert(os[i] == out_g);
                    assert(resps[i] == resp_g);
                }
            }
        }
    }
    proof {
        assert(orig.take(orig.len() as int) =~= orig);
        assert(os.len() == records@.len());
        assert(result.success_records@ == success_payloads(os));
        assert(result.test_erros@ == mismatch_payloads(os));
        assert(result.skip_records@ == skip_payloads(os));
        assert forall|i: int| #![trigger os[i]]
            0 <= i < os.len() implies judged_with_shape(records@[i], resps[i], os[i]) by {
            assert(judged_with_shape(orig[i], resps[i], os[i]));
        }
        assert(report_matches_outcomes(records@, result, os, resps));
    }
    result
}

/// What the external script parser yields for a given fixture text:
/// the records of the script, or nothing when the text is malformed.
pub uninterp spec fn parsed_records(s: Seq<char>) -> Option<Seq<TestRecord>>;

/// Relies on sqllogictest::parse: turning fixture text into typed
/// records is a pure function of that text, so its result is named by
/// `parsed_records`. Statement directives keep their SQL; query
/// directives keep their SQL, expected lines and sort mode; every other
/// directive becomes `TestRecord::Other`. The record model carries no
/// error or row-count expectations, so a statement expecting an error
/// or a count keeps only its SQL, and a query expecting an error maps
/// onto `TestRecord::Other`.
#[verifier::external_body]
fn parse_fixture(script: &str) -> (r: Result<Vec<TestRecord>, String>)
    ensures
        r matches Ok(records) ==> parsed_records(script@) == Some(records@),
        r matches Err(_) ==> parsed_records(script@) is None,
{
    match sqllogictest::parse::<sqllogictest::DefaultColumnType>(script) {
        Err(e) => Err(e.to_string()),
        Ok(rs) => Ok(rs.into_iter().map(|rec| match rec {
            sqllogictest::Record::Statement { sql, .. } => TestRecord::Statement { sql },
            sqllogictest::Record::Query { sql, expected: sqllogictest::QueryExpect::Results { sort_mode, results, .. }, .. } => TestRecord::Query { sql, expected_results: results, sort_mode: match sort_mode {
                Some(sqllogictest::SortMode::NoSort) => Some(SortMode::NoSort),
                Some(sqllogictest::SortMode::RowSort) => Some(SortMode::RowSort),
                Some(sqllogictest::SortMode::ValueSort) => Some(SortMode::ValueSort),
                None => None,
            } },
            _ => TestRecord::Other,
        }).collect()),
    }
}

/// Run one whole fixture text against the backend and report on it: a
/// text the parser rejects yields a report with a single parse failure
/// and no record-level outcome; otherwise every parsed record is judged
/// and counted.
pub fn run_script<B: Backend>(db: &mut B, file_name: String, script: &str) -> (r: TestResult)
    ensures
        r.file_name == file_name,
        parsed_records(script@) is None ==> (r.parse_errors@.len() == 1
            && r.success_records@.len() == 0 && r.skip_records@.len() == 0 && r.test_erros@.len()
            == 0),
        parsed_records(script@) matches Some(rs) ==> (r.parse_errors@.len() == 0
            && r.success_records@.len() + r.skip_records@.len() + r.test_erros@.len() == rs.len()
            && r.skip_records@ == rs.filter(value_sort_pred()) && (exists|
            os: Seq<Outcome>,
            resps: Seq<Result<DbOutput, LogicTestError>>,
        | report_matches_outcomes(rs, r, os, resps))),
        forall|i: int| 0 <= i < r.skip_records@.len() ==> is_value_sort(#[trigger] r.skip_records@[i]),
        forall|i: int|
            0 <= i < r.success_records@.len() ==> !is_value_sort(#[trigger] r.success_records@[i]),
        forall|i: int|
            0 <= i < r.test_erros@.len() ==> !is_value_sort(#[trigger] r.test_erros@[i].record),
{
    match parse_fixture(script) {
        Err(e) => {
            let mut result = TestResult::new(file_name);
            result.append_parse_error(e);
            result
        },
        Ok(records) => run_records(db, records, file_name),
    }
}

/// The stand-alone validator kept at the crate root: unlike the
/// pipeline's validator it takes the condensed path only when there is
/// also exactly one actual row; any other shape is compared exactly.
pub open spec fn spec_lib_validator(actual: Seq<Seq<Seq<char>>>, expected: Seq<Seq<char>>) -> bool {
    if expected.len() == 1 && actual.len() == 1 && text::spec_contains(
        expected[0],
        logic_tests::hash_marker(),
    ) {
        actual[0].len() > 0 && actual[0][0] == expected[0]
    } else {
        actual.flatten() == expected
    }
}

/// Compare actual rows against expected lines, choosing the condensed
/// path only when both sides have exactly one entry and the expected
/// line holds the hash marker. A condensed comparison with an empty
/// first row fails rather than faulting.
pub fn validator(actual: &[Vec<String>], expected: &[String]) -> (b: bool)
    ensures
        b == spec_lib_validator(actual.deep_view(), expected.deep_view()),
{
    proof {
        assert(actual.deep_view().len() == actual@.len());
        assert(expected.deep_view().len() == expected@.len());
    }
    if expected.len() == 1 && actual.len() == 1 && text::str_contains(
        expected[0].as_str(),
        "values hashing to",
    ) {
        proof {
            assert(expected.deep_view()[0] == expected@[0]@);
        }
        let row = &actual[0];
        proof {
            assert(actual.deep_view()[0] == actual@[0].deep_view());
        }
        if row.len() > 0 {
            let b = row[0] == expected[0];
            proof {
                assert(actual@[0].deep_view()[0] == actual@[0]@[0]@);
            }
            b
        } else {
            false
        }
    } else {
        let flat = logic_tests::flatten_rows(actual);
        let flat_slice = flat.as_slice();
        proof {
            assert(flat_slice.deep_view() =~= flat.deep_view());
        }
        logic_tests::cells_equal(flat_slice, expected)
    }
}

} // verus!
