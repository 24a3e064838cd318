//! Submitting a solution: the submit page's CSRF token and the form posted.
use vstd::prelude::*;
use crate::CsrfKey;
use crate::error::ScrapeError;
use crate::html::{matched_attrs, opt_list_view, opt_view, select_attrs};
use crate::problem::ProblemId;
use crate::text::{decimal_string, decimal_text, pairs_view, push_decimal, text_pair};

verus! {

/// Address of the judge's submit page; the problem id follows it.
pub const SUBMIT_URL_PREFIX: &'static str = "https://www.acmicpc.net/submit/";

/// Selector of the hidden input that carries the CSRF token.
pub const CSRF_INPUT_SELECTOR: &'static str = "input[name=\"csrf_key\"]";

/// Attribute of that input which holds the token.
pub const CSRF_VALUE_ATTR: &'static str = "value";

/// Who may read the submitted source once it is graded.
#[derive(Clone, Copy, Debug, PartialEq, Eq, Structural)]
pub enum CodeVisibility {
    Open,
    Close,
    OnlyAccepted,
}

/// The wire token of a visibility.
pub open spec fn visibility_token(v: CodeVisibility) -> Seq<char> {
    match v {
        CodeVisibility::Open => "open"@,
        CodeVisibility::Close => "close"@,
        CodeVisibility::OnlyAccepted => "onlyaccepted"@,
    }
}

impl CodeVisibility {
    /// The lowercase token sent for this visibility.
    pub fn token(&self) -> (r: &'static str)
        ensures
            r@ == visibility_token(*self),
    {
        match self {
            CodeVisibility::Open => "open",
            CodeVisibility::Close => "close",
            CodeVisibility::OnlyAccepted => "onlyaccepted",
        }
    }
}

/// Address of the submit page of a problem.
pub open spec fn submit_url(problem_id: ProblemId) -> Seq<char> {
    SUBMIT_URL_PREFIX@ + decimal_text(problem_id.0 as nat)
}

/// The submit page's address for `problem_id`: the page is fetched to read
/// the CSRF token, and the form is posted to it.
pub fn get_url(problem_id: ProblemId) -> (r: String)
    ensures
        r@ == submit_url(problem_id),
{
    let mut url = SUBMIT_URL_PREFIX.to_owned();
    push_decimal(&mut url, problem_id.0);
    url
}

/// A solution to submit, with the token it is submitted under.
#[derive(Clone, Debug, PartialEq, Eq)]
pub struct SubmitRequestForm {
    pub recaptcha_response: String,
    pub problem_id: ProblemId,
    pub language: u32,
    pub code_open: CodeVisibility,
    pub source: String,
    pub csrf_key: CsrfKey,
}

impl SubmitRequestForm {
    /// The form body, field by field, in the order the judge's form lists them.
    pub open spec fn spec_fields(&self) -> Seq<(Seq<char>, Seq<char>)> {
        seq![
            ("recaptcha_response"@, self.recaptcha_response@),
            ("problem_id"@, decimal_text(self.problem_id.0 as nat)),
            ("language"@, decimal_text(self.language as nat)),
            ("code_open"@, visibility_token(self.code_open)),
            ("source"@, self.source@),
            ("csrf_key"@, self.csrf_key.0@),
        ]
    }

    /// The name/value pairs of the form posted to the submit page.
    pub fn form_fields(&self) -> (r: Vec<(String, String)>)
        ensures
            pairs_view(r@) == self.spec_fields(),
    {
        let mut out: Vec<(String, String)> = Vec::new();
        out.push(text_pair("recaptcha_response", self.recaptcha_response.as_str()));
        out.push(("problem_id".to_owned(), decimal_string(self.problem_id.0)));
        out.push(("language".to_owned(), decimal_string(self.language)));
        out.push(text_pair("code_open", self.code_open.token()));
        out.push(text_pair("source", self.source.as_str()));
        out.push(text_pair("csrf_key", self.csrf_key.0.as_str()));
        assert(pairs_view(out@) =~= self.spec_fields());
        out
    }
}

/// The token that a submit page's inputs carry: the `value` of the first
/// matching input.
pub open spec fn csrf_of(inputs: Option<Seq<Option<Seq<char>>>>) -> Result<Seq<char>, ScrapeError> {
    match inputs {
        None => Err(ScrapeError::InvalidSelector),
        Some(values) => if values.len() == 0 {
            Err(ScrapeError::ElementNotFound)
        } else {
            match values[0] {
                Some(v) => Ok(v),
                None => Err(ScrapeError::AttributeNotFound),
            }
        },
    }
}

/// A fetched submit page.
#[derive(Clone, Debug)]
pub struct Submit(pub String);

impl Submit {
    /// Reads the CSRF token of the page's hidden `csrf_key` input.
    pub fn get_csrf_key(&self) -> (r: Result<CsrfKey, ScrapeError>)
        ensures
            match csrf_of(matched_attrs(self.0@, CSRF_INPUT_SELECTOR@, CSRF_VALUE_ATTR@)) {
                Ok(v) => r matches Ok(k) && k.0@ == v,
                Err(e) => r == Err::<CsrfKey, ScrapeError>(e),
            },
    {
        match select_attrs(self.0.as_str(), CSRF_INPUT_SELECTOR, CSRF_VALUE_ATTR) {
            Some(values) => csrf_key_from_values(&values),
            None => Err(ScrapeError::InvalidSelector),
        }
    }
}

/// The CSRF token that the `value` attributes of the page's `csrf_key`
/// inputs give: the first input's value; no input gives `ElementNotFound`,
/// and a first input without a value `AttributeNotFound`.
pub fn csrf_key_from_values(values: &Vec<Option<String>>) -> (r: Result<CsrfKey, ScrapeError>)
    ensures
        match csrf_of(Some(opt_list_view(values@))) {
            Ok(v) => r matches Ok(k) && k.0@ == v,
            Err(e) => r == Err::<CsrfKey, ScrapeError>(e),
        },
{
    if values.len() == 0 {
        return Err(ScrapeError::ElementNotFound);
    }
    assert(opt_list_view(values@)[0] == opt_view(values@[0]));
    match &values[0] {
        Some(v) => Ok(CsrfKey(v.clone())),
        None => Err(ScrapeError::AttributeNotFound),
    }
}

} // verus!
