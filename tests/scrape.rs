use bojclient::error::{DecodeError, ScrapeError};
use bojclient::problem::ProblemId;
use bojclient::status::{solutions_from_rows, AjaxResponse, ResourceUsed, SolutionResult, Status, StatusRequest};
use bojclient::submit::{csrf_key_from_values, get_url, CodeVisibility, Submit, SubmitRequestForm};
use bojclient::{username_from_texts, CsrfKey, Main};

fn status_page(rows: &str) -> Status {
    Status(format!(
        "<html><body><table><tbody>{}</tbody></table></body></html>",
        rows
    ))
}

#[test]
fn csrf_key_is_read_from_hidden_input() {
    let page = Submit(
        "<html><body><form><input type=\"hidden\" name=\"csrf_key\" value=\"abcd1234\"></form></body></html>"
            .to_string(),
    );
    let key = page.get_csrf_key().unwrap();
    assert_eq!(key.0, "abcd1234");
}

#[test]
fn csrf_key_missing_input_is_element_not_found() {
    let page = Submit("<html><body><form><input name=\"other\" value=\"x\"></form></body></html>".to_string());
    assert_eq!(page.get_csrf_key().unwrap_err(), ScrapeError::ElementNotFound);
}

#[test]
fn csrf_key_without_value_is_attribute_not_found() {
    let page = Submit("<html><body><input name=\"csrf_key\"></body></html>".to_string());
    assert_eq!(page.get_csrf_key().unwrap_err(), ScrapeError::AttributeNotFound);
}

#[test]
fn status_row_becomes_record() {
    let page = status_page(
        "<tr id=\"solution-55\"><td>55</td><td>alice</td><td>10171</td><td>맞았습니다!!</td></tr>",
    );
    let rows = page.get_solutions().unwrap();
    assert_eq!(rows.len(), 1);
    assert_eq!(rows[0].solution_id, 55);
    assert_eq!(rows[0].user, "alice");
    assert_eq!(rows[0].problem_id, ProblemId(10171));
    assert_eq!(rows[0].result, SolutionResult::Accepted);
}

#[test]
fn status_rows_keep_page_order() {
    let page = status_page(&[
        "<tr id=\"solution-903\"><td>903</td><td>carol</td><td>1000</td><td>틀렸습니다</td></tr>",
        "<tr id=\"solution-901\"><td>901</td><td>bob</td><td>1001</td><td>시간 초과</td></tr>",
        "<tr id=\"other-7\"><td>7</td><td>nobody</td><td>1</td><td>x</td></tr>",
        "<tr id=\"solution-900\"><td>900</td><td>alice</td><td>1002</td><td>채점 중</td></tr>",
    ]
    .concat());
    let rows = page.get_solutions().unwrap();
    let ids: Vec<u32> = rows.iter().map(|s| s.solution_id).collect();
    assert_eq!(ids, vec![903, 901, 900]);
    assert_eq!(rows[0].user, "carol");
    assert_eq!(rows[1].user, "bob");
    assert_eq!(rows[2].user, "alice");
    assert_eq!(rows[0].problem_id, ProblemId(1000));
    assert_eq!(rows[2].problem_id, ProblemId(1002));
    assert_eq!(rows[0].result, SolutionResult::Wrong);
    assert_eq!(rows[1].result, SolutionResult::Timeout);
    assert_eq!(rows[2].result, SolutionResult::Other);
}

#[test]
fn status_page_without_rows_is_empty() {
    let page = status_page("<tr><td>header</td></tr>");
    assert!(page.get_solutions().unwrap().is_empty());
}

#[test]
fn status_row_with_bad_id_is_unparseable() {
    let page = status_page(
        "<tr id=\"solution-1\"><td>abc</td><td>alice</td><td>1000</td><td>틀렸습니다</td></tr>",
    );
    assert_eq!(page.get_solutions().unwrap_err(), ScrapeError::Unparseable);
}

#[test]
fn status_row_with_missing_cells_is_element_not_found() {
    let page = status_page("<tr id=\"solution-1\"><td>1</td><td>alice</td></tr>");
    assert_eq!(page.get_solutions().unwrap_err(), ScrapeError::ElementNotFound);
}

#[test]
fn username_is_read_from_home_page() {
    let page = Main("<html><body><a class=\"username\" href=\"/user/alice\">alice</a></body></html>".to_string());
    assert_eq!(page.get_username().unwrap(), "alice");
}

#[test]
fn missing_username_is_element_not_found() {
    let page = Main("<html><body><a class=\"login\">log in</a></body></html>".to_string());
    assert_eq!(page.get_username().unwrap_err(), ScrapeError::ElementNotFound);
}

#[test]
fn empty_username_is_not_an_error() {
    let page = Main("<html><body><a class=\"username\"></a></body></html>".to_string());
    assert_eq!(page.get_username().unwrap(), "");
}

#[test]
fn ajax_fields_are_coerced() {
    let r = AjaxResponse::from_fields("55", Some("120"), Some("2048"), "#009874".to_string(), "맞았습니다!!")
        .unwrap();
    assert_eq!(r.solution_id, 55);
    assert_eq!(r.resource_used, Some(ResourceUsed { time: 120, memory: 2048 }));
    assert_eq!(r.result_color, "#009874");
    assert_eq!(r.result_name, SolutionResult::Accepted);
}

#[test]
fn ajax_without_resources_has_none() {
    let r = AjaxResponse::from_fields("77", None, None, "#e67e22".to_string(), "채점 중").unwrap();
    assert_eq!(r.solution_id, 77);
    assert_eq!(r.resource_used, None);
    assert_eq!(r.result_name, SolutionResult::Other);
}

#[test]
fn ajax_bad_id_is_decode_error() {
    let r = AjaxResponse::from_fields("5x5", Some("1"), Some("2"), String::new(), "틀렸습니다");
    assert_eq!(r.unwrap_err(), DecodeError::NotANumber);
}

#[test]
fn submit_url_holds_problem_id() {
    assert_eq!(get_url(ProblemId(10171)), "https://www.acmicpc.net/submit/10171");
    assert_eq!(get_url(ProblemId(0)), "https://www.acmicpc.net/submit/0");
}

#[test]
fn submit_form_fields_in_order() {
    let form = SubmitRequestForm {
        recaptcha_response: String::new(),
        problem_id: ProblemId(1000),
        language: 84,
        code_open: CodeVisibility::OnlyAccepted,
        source: "int main(){}".to_string(),
        csrf_key: CsrfKey("abcd1234".to_string()),
    };
    let fields = form.form_fields();
    let expected: Vec<(String, String)> = vec![
        ("recaptcha_response".to_string(), "".to_string()),
        ("problem_id".to_string(), "1000".to_string()),
        ("language".to_string(), "84".to_string()),
        ("code_open".to_string(), "onlyaccepted".to_string()),
        ("source".to_string(), "int main(){}".to_string()),
        ("csrf_key".to_string(), "abcd1234".to_string()),
    ];
    assert_eq!(fields, expected);
}

#[test]
fn visibility_tokens() {
    assert_eq!(CodeVisibility::Open.token(), "open");
    assert_eq!(CodeVisibility::Close.token(), "close");
    assert_eq!(CodeVisibility::OnlyAccepted.token(), "onlyaccepted");
}

#[test]
fn status_query_lists_set_filters() {
    let both = StatusRequest { problem_id: Some(ProblemId(10171)), user_id: Some("alice".to_string()) };
    assert_eq!(
        both.query_pairs(),
        vec![
            ("problem_id".to_string(), "10171".to_string()),
            ("user_id".to_string(), "alice".to_string())
        ]
    );
    let user_only = StatusRequest { problem_id: None, user_id: Some("bob".to_string()) };
    assert_eq!(user_only.query_pairs(), vec![("user_id".to_string(), "bob".to_string())]);
    let none = StatusRequest { problem_id: None, user_id: None };
    assert!(none.query_pairs().is_empty());
}

#[test]
fn ajax_json_answer_gives_verdict_and_resources() {
    let body = r##"{"solution_id":"55","time":"120","memory":"2048","result_color":"#...","result_name":"맞았습니다!!"}"##;
    let v: serde_json::Value = serde_json::from_str(body).unwrap();
    let text = |key: &str| v.get(key).and_then(|f| f.as_str());
    let r = AjaxResponse::from_fields(
        text("solution_id").unwrap(),
        text("time"),
        text("memory"),
        text("result_color").unwrap().to_string(),
        text("result_name").unwrap(),
    )
    .unwrap();
    assert_eq!(r.solution_id, 55);
    assert_eq!(r.result_name, SolutionResult::Accepted);
    assert_eq!(r.resource_used, Some(ResourceUsed { time: 120, memory: 2048 }));
    assert_eq!(r.result_color, "#...");
}

#[test]
fn ajax_with_one_resource_field_has_none() {
    let r = AjaxResponse::from_fields("9", Some("120"), None, String::new(), "틀렸습니다").unwrap();
    assert_eq!(r.resource_used, None);
    assert_eq!(r.result_name, SolutionResult::Wrong);
}

#[test]
fn rows_of_cell_texts_become_records() {
    let rows = vec![
        vec![Some("12".to_string()), Some("dave".to_string()), Some("3000".to_string()), Some("컴파일 에러".to_string())],
        vec![Some("11".to_string()), Some("erin".to_string()), Some("3001".to_string()), None],
    ];
    assert_eq!(solutions_from_rows(&rows).unwrap_err(), ScrapeError::ElementNotFound);
    let first = solutions_from_rows(&rows[..1].to_vec()).unwrap();
    assert_eq!(first.len(), 1);
    assert_eq!(first[0].solution_id, 12);
    assert_eq!(first[0].user, "dave");
    assert_eq!(first[0].problem_id, ProblemId(3000));
    assert_eq!(first[0].result, SolutionResult::CompileError);
    assert!(solutions_from_rows(&Vec::new()).unwrap().is_empty());
}

#[test]
fn username_from_element_texts() {
    assert_eq!(username_from_texts(&vec![Some("alice".to_string()), Some("x".to_string())]).unwrap(), "alice");
    assert_eq!(username_from_texts(&vec![None]).unwrap(), "");
    assert_eq!(username_from_texts(&Vec::new()).unwrap_err(), ScrapeError::ElementNotFound);
}

#[test]
fn csrf_key_from_input_values() {
    assert_eq!(csrf_key_from_values(&vec![Some("abcd1234".to_string())]).unwrap().0, "abcd1234");
    assert_eq!(csrf_key_from_values(&vec![None]).unwrap_err(), ScrapeError::AttributeNotFound);
    assert_eq!(csrf_key_from_values(&Vec::new()).unwrap_err(), ScrapeError::ElementNotFound);
}
