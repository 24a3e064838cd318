//! The status listing: verdicts, status rows and the verdict endpoint's answer.
use vstd::prelude::*;
use crate::error::{DecodeError, ScrapeError};
use crate::html::{cells_view, matched_cells, opt_list_view, opt_view, select_cells};
use crate::problem::ProblemId;
use crate::text::{decimal_string, decimal_u32, pairs_view, parse_u32, same_text, text_pair, decimal_text};

verus! {

/// Selector of the rows of the status table, one per submission.
pub const STATUS_ROW_SELECTOR: &'static str = "tr[id^=solution-]";

/// Selector of the cells within a status row.
pub const STATUS_CELL_SELECTOR: &'static str = "td";

/// The judge's verdict on a submission.
#[derive(Clone, Copy, Debug, PartialEq, Eq, Structural)]
pub enum SolutionResult {
    Accepted,
    WrongFormat,
    Wrong,
    Timeout,
    OutOfMemory,
    TooMuchOutput,
    RuntimeError,
    CompileError,
    /// Not final yet, or a label that the table does not know.
    Other,
}

/// The verdict that the judge's label text `l` stands for.
pub open spec fn label_result(l: Seq<char>) -> SolutionResult {
    if l == "맞았습니다!!"@ {
        SolutionResult::Accepted
    } else if l == "출력 형식이 잘못되었습니다"@ {
        SolutionResult::WrongFormat
    } else if l == "틀렸습니다"@ {
        SolutionResult::Wrong
    } else if l == "시간 초과"@ {
        SolutionResult::Timeout
    } else if l == "메모리 초과"@ {
        SolutionResult::OutOfMemory
    } else if l == "출력 초과"@ {
        SolutionResult::TooMuchOutput
    } else if l == "런타임 에러"@ {
        SolutionResult::RuntimeError
    } else if l == "컴파일 에러"@ {
        SolutionResult::CompileError
    } else {
        SolutionResult::Other
    }
}

impl SolutionResult {
    /// Whether the verdict is final.
    pub open spec fn spec_is_terminal(self) -> bool {
        !(self is Other)
    }

    /// Decodes the judge's label text; labels outside the table give `Other`.
    pub fn from_label(label: &str) -> (r: SolutionResult)
        ensures
            r == label_result(label@),
    {
        if same_text(label, "맞았습니다!!") {
            SolutionResult::Accepted
        } else if same_text(label, "출력 형식이 잘못되었습니다") {
            SolutionResult::WrongFormat
        } else if same_text(label, "틀렸습니다") {
            SolutionResult::Wrong
        } else if same_text(label, "시간 초과") {
            SolutionResult::Timeout
        } else if same_text(label, "메모리 초과") {
            SolutionResult::OutOfMemory
        } else if same_text(label, "출력 초과") {
            SolutionResult::TooMuchOutput
        } else if same_text(label, "런타임 에러") {
            SolutionResult::RuntimeError
        } else if same_text(label, "컴파일 에러") {
            SolutionResult::CompileError
        } else {
            SolutionResult::Other
        }
    }

    /// Whether the verdict is final, so that polling stops.
    pub fn is_terminal(&self) -> (r: bool)
        ensures
            r == self.spec_is_terminal(),
    {
        !matches!(self, SolutionResult::Other)
    }

    /// The judge's label text for a final verdict; `None` for `Other`, which
    /// has no label of its own.
    pub fn label(&self) -> (r: Option<&'static str>)
        ensures
            r is None <==> *self is Other,
            r matches Some(l) ==> l@ == label_text(*self) && label_result(l@) == *self,
    {
        proof {
            lemma_labels_distinct();
        }
        match self {
            SolutionResult::Accepted => Some("맞았습니다!!"),
            SolutionResult::WrongFormat => Some("출력 형식이 잘못되었습니다"),
            SolutionResult::Wrong => Some("틀렸습니다"),
            SolutionResult::Timeout => Some("시간 초과"),
            SolutionResult::OutOfMemory => Some("메모리 초과"),
            SolutionResult::TooMuchOutput => Some("출력 초과"),
            SolutionResult::RuntimeError => Some("런타임 에러"),
            SolutionResult::CompileError => Some("컴파일 에러"),
            SolutionResult::Other => None,
        }
    }
}

/// The labels of the table are pairwise distinct: each starts with another
/// character, but for two that differ in length.
proof fn lemma_labels_distinct()
    ensures
        "맞았습니다!!"@ != "출력 형식이 잘못되었습니다"@,
        "맞았습니다!!"@ != "틀렸습니다"@,
        "맞았습니다!!"@ != "시간 초과"@,
        "맞았습니다!!"@ != "메모리 초과"@,
        "맞았습니다!!"@ != "출력 초과"@,
        "맞았습니다!!"@ != "런타임 에러"@,
        "맞았습니다!!"@ != "컴파일 에러"@,
        "출력 형식이 잘못되었습니다"@ != "틀렸습니다"@,
        "출력 형식이 잘못되었습니다"@ != "시간 초과"@,
        "출력 형식이 잘못되었습니다"@ != "메모리 초과"@,
        "출력 형식이 잘못되었습니다"@ != "출력 초과"@,
        "출력 형식이 잘못되었습니다"@ != "런타임 에러"@,
        "출력 형식이 잘못되었습니다"@ != "컴파일 에러"@,
        "틀렸습니다"@ != "시간 초과"@,
        "틀렸습니다"@ != "메모리 초과"@,
        "틀렸습니다"@ != "출력 초과"@,
        "틀렸습니다"@ != "런타임 에러"@,
        "틀렸습니다"@ != "컴파일 에러"@,
        "시간 초과"@ != "메모리 초과"@,
        "시간 초과"@ != "출력 초과"@,
        "시간 초과"@ != "런타임 에러"@,
        "시간 초과"@ != "컴파일 에러"@,
        "메모리 초과"@ != "출력 초과"@,
        "메모리 초과"@ != "런타임 에러"@,
        "메모리 초과"@ != "컴파일 에러"@,
        "출력 초과"@ != "런타임 에러"@,
        "출력 초과"@ != "컴파일 에러"@,
        "런타임 에러"@ != "컴파일 에러"@,
{
    reveal_strlit("맞았습니다!!");
    reveal_strlit("출력 형식이 잘못되었습니다");
    reveal_strlit("틀렸습니다");
    reveal_strlit("시간 초과");
    reveal_strlit("메모리 초과");
    reveal_strlit("출력 초과");
    reveal_strlit("런타임 에러");
    reveal_strlit("컴파일 에러");
    assert("맞았습니다!!"@.len() == 7 && "맞았습니다!!"@[0] == '맞');
    assert("출력 형식이 잘못되었습니다"@.len() == 14 && "출력 형식이 잘못되었습니다"@[0] == '출');
    assert("틀렸습니다"@.len() == 5 && "틀렸습니다"@[0] == '틀');
    assert("시간 초과"@.len() == 5 && "시간 초과"@[0] == '시');
    assert("메모리 초과"@.len() == 6 && "메모리 초과"@[0] == '메');
    assert("출력 초과"@.len() == 5 && "출력 초과"@[0] == '출');
    assert("런타임 에러"@.len() == 6 && "런타임 에러"@[0] == '런');
    assert("컴파일 에러"@.len() == 6 && "컴파일 에러"@[0] == '컴');
}

/// Decoding a label of the table gives its verdict, any other text gives
/// `Other`, and the label of a final verdict decodes back to that verdict.
pub proof fn lemma_label_table(l: Seq<char>, v: SolutionResult)
    ensures
        l == "맞았습니다!!"@ ==> label_result(l) is Accepted,
        l == "출력 형식이 잘못되었습니다"@ ==> label_result(l) is WrongFormat,
        l == "틀렸습니다"@ ==> label_result(l) is Wrong,
        l == "시간 초과"@ ==> label_result(l) is Timeout,
        l == "메모리 초과"@ ==> label_result(l) is OutOfMemory,
        l == "출력 초과"@ ==> label_result(l) is TooMuchOutput,
        l == "런타임 에러"@ ==> label_result(l) is RuntimeError,
        l == "컴파일 에러"@ ==> label_result(l) is CompileError,
        l != "맞았습니다!!"@ && l != "출력 형식이 잘못되었습니다"@ && l != "틀렸습니다"@
            && l != "시간 초과"@ && l != "메모리 초과"@ && l != "출력 초과"@
            && l != "런타임 에러"@ && l != "컴파일 에러"@ ==> label_result(l) is Other,
        !(v is Other) ==> label_result(label_text(v)) == v,
{
    lemma_labels_distinct();
}

/// The canonical label text of a verdict (empty for `Other`).
pub open spec fn label_text(v: SolutionResult) -> Seq<char> {
    match v {
        SolutionResult::Accepted => "맞았습니다!!"@,
        SolutionResult::WrongFormat => "출력 형식이 잘못되었습니다"@,
        SolutionResult::Wrong => "틀렸습니다"@,
        SolutionResult::Timeout => "시간 초과"@,
        SolutionResult::OutOfMemory => "메모리 초과"@,
        SolutionResult::TooMuchOutput => "출력 초과"@,
        SolutionResult::RuntimeError => "런타임 에러"@,
        SolutionResult::CompileError => "컴파일 에러"@,
        SolutionResult::Other => Seq::empty(),
    }
}

/// One row of the status listing.
#[derive(Clone, Debug)]
pub struct Solution {
    pub solution_id: u32,
    pub user: String,
    pub problem_id: ProblemId,
    pub result: SolutionResult,
}

/// Mathematical view of a status row.
pub struct SolutionView {
    pub solution_id: u32,
    pub user: Seq<char>,
    pub problem_id: ProblemId,
    pub result: SolutionResult,
}

impl View for Solution {
    type V = SolutionView;

    open spec fn view(&self) -> SolutionView {
        SolutionView {
            solution_id: self.solution_id,
            user: self.user@,
            problem_id: self.problem_id,
            result: self.result,
        }
    }
}

/// The record that the cell texts of one status row stand for, read in
/// column order: submission id, user, problem id, verdict label.
pub open spec fn row_solution(cells: Seq<Option<Seq<char>>>) -> Result<SolutionView, ScrapeError> {
    if cells.len() < 1 || cells[0] is None {
        Err(ScrapeError::ElementNotFound)
    } else if decimal_u32(cells[0]->0) is None {
        Err(ScrapeError::Unparseable)
    } else if cells.len() < 2 || cells[1] is None {
        Err(ScrapeError::ElementNotFound)
    } else if cells.len() < 3 || cells[2] is None {
        Err(ScrapeError::ElementNotFound)
    } else if decimal_u32(cells[2]->0) is None {
        Err(ScrapeError::Unparseable)
    } else if cells.len() < 4 || cells[3] is None {
        Err(ScrapeError::ElementNotFound)
    } else {
        Ok(SolutionView {
            solution_id: decimal_u32(cells[0]->0)->0,
            user: cells[1]->0,
            problem_id: ProblemId(decimal_u32(cells[2]->0)->0),
            result: label_result(cells[3]->0),
        })
    }
}

/// The records of all rows, in row order, or the error of the first row that
/// does not read.
pub open spec fn rows_solutions(rows: Seq<Seq<Option<Seq<char>>>>) -> Result<Seq<SolutionView>, ScrapeError>
    decreases rows.len(),
{
    if rows.len() == 0 {
        Ok(Seq::empty())
    } else {
        match rows_solutions(rows.drop_last()) {
            Err(e) => Err(e),
            Ok(done) => match row_solution(rows.last()) {
                Err(e) => Err(e),
                Ok(s) => Ok(done.push(s)),
            },
        }
    }
}

/// Views of a list of records.
pub open spec fn solutions_view(v: Seq<Solution>) -> Seq<SolutionView> {
    v.map_values(|s: Solution| s@)
}

/// View of the result of a listing.
pub open spec fn listing_view(r: Result<Vec<Solution>, ScrapeError>) -> Result<Seq<SolutionView>, ScrapeError> {
    match r {
        Ok(v) => Ok(solutions_view(v@)),
        Err(e) => Err(e),
    }
}

/// Once a prefix of the rows fails to read, every longer prefix fails with
/// the same error.
proof fn lemma_rows_error_sticks(rows: Seq<Seq<Option<Seq<char>>>>, k: int)
    requires
        0 <= k <= rows.len(),
        rows_solutions(rows.take(k)) is Err,
    ensures
        rows_solutions(rows) == rows_solutions(rows.take(k)),
    decreases rows.len() - k,
{
    if k < rows.len() {
        assert(rows.take(k + 1).drop_last() =~= rows.take(k));
        lemma_rows_error_sticks(rows, k + 1);
    } else {
        assert(rows.take(k) =~= rows);
    }
}

/// Status rows are read in order: when every row reads, the records come out
/// one per row in the rows' order, each from its own row's cells; otherwise
/// the error is that of the first row that does not read.
pub proof fn lemma_rows_in_order(rows: Seq<Seq<Option<Seq<char>>>>)
    ensures
        rows_solutions(rows) is Ok <==> (forall|i: int| 0 <= i < rows.len() ==> (#[trigger] row_solution(rows[i])) is Ok),
        rows_solutions(rows) matches Ok(v) ==> v.len() == rows.len()
            && (forall|i: int| 0 <= i < rows.len() ==> row_solution(rows[i]) == Ok::<SolutionView, ScrapeError>(#[trigger] v[i])),
        rows_solutions(rows) matches Err(e) ==> exists|i: int| 0 <= i < rows.len()
            && row_solution(rows[i]) == Err::<SolutionView, ScrapeError>(e)
            && (forall|j: int| 0 <= j < i ==> (#[trigger] row_solution(rows[j])) is Ok),
    decreases rows.len(),
{
    if rows.len() > 0 {
        let front = rows.drop_last();
        let n = rows.len() - 1;
        lemma_rows_in_order(front);
        assert(forall|i: int| 0 <= i < front.len() ==> #[trigger] front[i] == rows[i]);
        assert(rows.last() == rows[n]);
        match rows_solutions(front) {
            Err(e) => {
                let i = choose|i: int| 0 <= i < front.len()
                    && row_solution(front[i]) == Err::<SolutionView, ScrapeError>(e)
                    && (forall|j: int| 0 <= j < i ==> (#[trigger] row_solution(front[j])) is Ok);
                assert(row_solution(rows[i]) is Err);
                assert(rows_solutions(rows) is Err);
                assert forall|j: int| 0 <= j < i implies (#[trigger] row_solution(rows[j])) is Ok by {
                    assert(front[j] == rows[j]);
                }
            },
            Ok(done) => {
                match row_solution(rows[n]) {
                    Err(e) => {
                        assert(rows_solutions(rows) is Err);
                        assert forall|j: int| 0 <= j < n implies (#[trigger] row_solution(rows[j])) is Ok by {
                            assert(front[j] == rows[j]);
                        }
                    },
                    Ok(last) => {
                        let v = done.push(last);
                        assert forall|i: int| 0 <= i < rows.len() implies row_solution(rows[i])
                            == Ok::<SolutionView, ScrapeError>(#[trigger] v[i]) by {
                            if i < n {
                                assert(row_solution(front[i]) == Ok::<SolutionView, ScrapeError>(done[i]));
                            }
                        }
                        assert(rows_solutions(rows) == Ok::<Seq<SolutionView>, ScrapeError>(v));
                        assert forall|i: int| 0 <= i < rows.len() implies (#[trigger] row_solution(rows[i])) is Ok by {
                            assert(row_solution(rows[i]) == Ok::<SolutionView, ScrapeError>(v[i]));
                        }
                    },
                }
            },
        }
    }
}

/// Reads one status row from its cell texts.
fn parse_row(cells: &Vec<Option<String>>) -> (r: Result<Solution, ScrapeError>)
    ensures
        listing_view_one(r) == row_solution(opt_list_view(cells@)),
{
    let ghost cv = opt_list_view(cells@);
    if cells.len() < 1 {
        return Err(ScrapeError::ElementNotFound);
    }
    let id_text = match &cells[0] {
        Some(t) => t,
        None => return Err(ScrapeError::ElementNotFound),
    };
    let solution_id = match parse_u32(id_text.as_str()) {
        Some(n) => n,
        None => return Err(ScrapeError::Unparseable),
    };
    if cells.len() < 2 {
        return Err(ScrapeError::ElementNotFound);
    }
    let user = match &cells[1] {
        Some(t) => t.clone(),
        None => return Err(ScrapeError::ElementNotFound),
    };
    if cells.len() < 3 {
        return Err(ScrapeError::ElementNotFound);
    }
    let problem_text = match &cells[2] {
        Some(t) => t,
        None => return Err(ScrapeError::ElementNotFound),
    };
    let problem_id = match parse_u32(problem_text.as_str()) {
        Some(n) => n,
        None => return Err(ScrapeError::Unparseable),
    };
    if cells.len() < 4 {
        return Err(ScrapeError::ElementNotFound);
    }
    let result = match &cells[3] {
        Some(t) => SolutionResult::from_label(t.as_str()),
        None => return Err(ScrapeError::ElementNotFound),
    };
    Ok(Solution { solution_id, user, problem_id: ProblemId(problem_id), result })
}

/// View of the result of reading one row.
pub open spec fn listing_view_one(r: Result<Solution, ScrapeError>) -> Result<SolutionView, ScrapeError> {
    match r {
        Ok(s) => Ok(s@),
        Err(e) => Err(e),
    }
}

/// A fetched status page.
#[derive(Clone, Debug)]
pub struct Status(pub String);

impl Status {
    /// Reads every submission row of the page, in the order the page lists
    /// them. A page without rows gives an empty list.
    pub fn get_solutions(&self) -> (r: Result<Vec<Solution>, ScrapeError>)
        ensures
            match matched_cells(self.0@, STATUS_ROW_SELECTOR@, STATUS_CELL_SELECTOR@) {
                None => r == Err::<Vec<Solution>, ScrapeError>(ScrapeError::InvalidSelector),
                Some(rows) => listing_view(r) == rows_solutions(rows),
            },
    {
        match select_cells(self.0.as_str(), STATUS_ROW_SELECTOR, STATUS_CELL_SELECTOR) {
            Some(rows) => solutions_from_rows(&rows),
            None => Err(ScrapeError::InvalidSelector),
        }
    }
}

/// Reads status records from the cell texts of the status table's rows, in
/// row order; the first row that does not read gives its error.
pub fn solutions_from_rows(rows: &Vec<Vec<Option<String>>>) -> (r: Result<Vec<Solution>, ScrapeError>)
    ensures
        listing_view(r) == rows_solutions(cells_view(rows@)),
{
    let ghost rv = cells_view(rows@);
    let mut out: Vec<Solution> = Vec::new();
    assert(rv.take(0) =~= Seq::<Seq<Option<Seq<char>>>>::empty());
    assert(solutions_view(out@) =~= Seq::<SolutionView>::empty());
    let mut i: usize = 0;
    while i < rows.len()
        invariant
            i <= rows.len(),
            rv == cells_view(rows@),
            rows_solutions(rv.take(i as int)) == Ok::<Seq<SolutionView>, ScrapeError>(solutions_view(out@)),
        decreases rows.len() - i,
    {
        assert(rv.take(i + 1).drop_last() =~= rv.take(i as int));
        assert(rv.take(i + 1).last() == rv[i as int]);
        assert(rv[i as int] == opt_list_view(rows@[i as int]@));
        match parse_row(&rows[i]) {
            Ok(s) => {
                out.push(s);
                assert(solutions_view(out@) =~= rows_solutions(rv.take(i as int))->Ok_0.push(s@));
            },
            Err(e) => {
                proof {
                    assert(rows_solutions(rv.take(i + 1)) == Err::<Seq<SolutionView>, ScrapeError>(e));
                    lemma_rows_error_sticks(rv, i + 1);
                    assert(rows_solutions(rv) == Err::<Seq<SolutionView>, ScrapeError>(e));
                    assert(listing_view(Err::<Vec<Solution>, ScrapeError>(e)) == rows_solutions(rv));
                }
                return Err(e);
            },
        }
        i = i + 1;
    }
    assert(rv.take(i as int) =~= rv);
    Ok(out)
}

/// Filter of the status listing: by problem, by user, or both.
#[derive(Clone, Debug)]
pub struct StatusRequest {
    pub problem_id: Option<ProblemId>,
    pub user_id: Option<String>,
}

/// Query parameters of the status page for a filter: each filter that is set,
/// problem first.
pub open spec fn status_query(problem_id: Option<ProblemId>, user_id: Option<Seq<char>>) -> Seq<(Seq<char>, Seq<char>)> {
    let by_problem = match problem_id {
        Some(p) => seq![("problem_id"@, decimal_text(p.0 as nat))],
        None => Seq::empty(),
    };
    let by_user = match user_id {
        Some(u) => seq![("user_id"@, u)],
        None => Seq::empty(),
    };
    by_problem + by_user
}

impl StatusRequest {
    /// The query parameters that select this filter's rows on the status page.
    pub fn query_pairs(&self) -> (r: Vec<(String, String)>)
        ensures
            pairs_view(r@) == status_query(self.problem_id, opt_view(self.user_id)),
    {
        let mut out: Vec<(String, String)> = Vec::new();
        if let Some(p) = self.problem_id {
            let value = decimal_string(p.0);
            out.push(("problem_id".to_owned(), value));
        }
        if let Some(u) = &self.user_id {
            out.push(text_pair("user_id", u.as_str()));
        }
        assert(pairs_view(out@) =~= status_query(self.problem_id, opt_view(self.user_id)));
        out
    }
}

/// Time and memory that grading used.
#[derive(Clone, Copy, Debug, PartialEq, Eq, Structural)]
pub struct ResourceUsed {
    pub time: u32,
    pub memory: u32,
}

/// The verdict endpoint's answer for one submission.
#[derive(Clone, Debug)]
pub struct AjaxResponse {
    pub solution_id: u32,
    pub resource_used: Option<ResourceUsed>,
    pub result_color: String,
    pub result_name: SolutionResult,
}

/// View of an optional string slice.
pub open spec fn opt_str_view(o: Option<&str>) -> Option<Seq<char>> {
    match o {
        Some(s) => Some(s@),
        None => None,
    }
}

/// Resource usage from the `time` and `memory` fields: present when both
/// fields are there and both hold a `u32`.
pub open spec fn resource_of(time: Option<Seq<char>>, memory: Option<Seq<char>>) -> Option<ResourceUsed> {
    match (time, memory) {
        (Some(t), Some(m)) => match (decimal_u32(t), decimal_u32(m)) {
            (Some(a), Some(b)) => Some(ResourceUsed { time: a, memory: b }),
            _ => None,
        },
        _ => None,
    }
}

impl AjaxResponse {
    /// Coerces the fields of the verdict endpoint's JSON answer, whose numbers
    /// arrive as strings. The submission id must hold a `u32`; resource usage
    /// is kept only when both of its fields are there and hold one.
    pub fn from_fields(
        solution_id: &str,
        time: Option<&str>,
        memory: Option<&str>,
        result_color: String,
        result_name: &str,
    ) -> (r: Result<AjaxResponse, DecodeError>)
        ensures
            r is Err <==> decimal_u32(solution_id@) is None,
            r matches Err(e) ==> e == DecodeError::NotANumber,
            r matches Ok(a) ==> a.solution_id == decimal_u32(solution_id@)->0
                && a.resource_used == resource_of(opt_str_view(time), opt_str_view(memory))
                && a.result_color@ == result_color@
                && a.result_name == label_result(result_name@),
    {
        let id = match parse_u32(solution_id) {
            Some(n) => n,
            None => return Err(DecodeError::NotANumber),
        };
        let resource_used = match (time, memory) {
            (Some(t), Some(m)) => match (parse_u32(t), parse_u32(m)) {
                (Some(a), Some(b)) => Some(ResourceUsed { time: a, memory: b }),
                _ => None,
            },
            _ => None,
        };
        Ok(AjaxResponse {
            solution_id: id,
            resource_used,
            result_color,
            result_name: SolutionResult::from_label(result_name),
        })
    }
}

} // verus!
