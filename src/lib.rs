//! Client-side protocol engine for an online judge's HTML web interface:
//! scraping identity, CSRF tokens and status rows out of fetched pages,
//! building submission forms, and deciding when verdict polling stops.
use vstd::prelude::*;
use crate::error::ScrapeError;
use crate::html::{matched_texts, opt_list_view, opt_view, select_texts};
use crate::session::CookieJar;
use crate::text::same_text;

pub mod error;
pub mod html;
pub mod poll;
pub mod problem;
pub mod session;
pub mod status;
pub mod submit;
pub mod text;

verus! {

/// One-time token that the submit page hands out for one submission.
#[derive(Clone, Debug, PartialEq, Eq)]
pub struct CsrfKey(pub String);

/// Origin of the judge; the session's cookies belong to it.
pub const BASE_URL: &'static str = "https://www.acmicpc.net/";

/// Name of the judge's auto-login cookie.
pub const AUTO_LOGIN_COOKIE: &'static str = "bojautologin";

/// Name of the judge's session cookie.
pub const SESSION_COOKIE: &'static str = "OnlineJudge";

/// Selector of the element that shows the logged-in user's name.
pub const USERNAME_SELECTOR: &'static str = "a[class=\"username\"]";

/// The two authentication cookie values of a logged-in identity.
#[derive(Clone, Debug, PartialEq, Eq)]
pub struct LoginCookie {
    pub boj_auto_login: String,
    pub online_judge: String,
}

impl Default for LoginCookie {
    /// A login with both cookie values empty.
    fn default() -> (r: LoginCookie)
        ensures
            r.boj_auto_login@ == Seq::<char>::empty(),
            r.online_judge@ == Seq::<char>::empty(),
    {
        LoginCookie { boj_auto_login: String::new(), online_judge: String::new() }
    }
}

/// The cookies of `jar` once `login` is applied to it.
pub open spec fn login_applied(jar: Map<Seq<char>, Seq<char>>, login: LoginCookie) -> Map<Seq<char>, Seq<char>> {
    jar.insert(AUTO_LOGIN_COOKIE@, login.boj_auto_login@).insert(SESSION_COOKIE@, login.online_judge@)
}

impl LoginCookie {
    /// Installs the two login cookies in the session's jar, replacing earlier
    /// values of theirs.
    pub fn apply(&self, jar: &mut CookieJar)
        ensures
            final(jar)@ == login_applied(old(jar)@, *self),
    {
        jar.set(AUTO_LOGIN_COOKIE, self.boj_auto_login.as_str());
        jar.set(SESSION_COOKIE, self.online_judge.as_str());
    }
}

/// Applying the same login twice leaves the jar as applying it once.
pub proof fn lemma_apply_idempotent(jar: Map<Seq<char>, Seq<char>>, login: LoginCookie)
    ensures
        login_applied(login_applied(jar, login), login) == login_applied(jar, login),
{
    reveal_strlit("bojautologin");
    reveal_strlit("OnlineJudge");
    assert(AUTO_LOGIN_COOKIE@[0] != SESSION_COOKIE@[0]);
    assert(login_applied(login_applied(jar, login), login) =~= login_applied(jar, login));
}

/// The name that the home page's username elements give: the text of the
/// first one, empty when it has no text.
pub open spec fn username_of(texts: Option<Seq<Option<Seq<char>>>>) -> Result<Seq<char>, ScrapeError> {
    match texts {
        None => Err(ScrapeError::InvalidSelector),
        Some(t) => if t.len() == 0 {
            Err(ScrapeError::ElementNotFound)
        } else {
            match t[0] {
                Some(name) => Ok(name),
                None => Ok(Seq::empty()),
            }
        },
    }
}

/// Languages that the judge accepts, each under its own numeric code.
#[derive(Clone, Copy, Debug, PartialEq, Eq, Structural)]
pub enum ProgrammingLanguageIds {
    Cpp17,
    Python3,
    PyPy3,
    C99,
    Java11,
    Ruby,
    KotlinJvm,
    Swift,
    Text,
    Cs90DotNet,
    NodeJs,
    Go,
    D,
    Rust2018,
    Cpp17Clang,
}

/// The judge's numeric code of a language.
pub open spec fn language_code(l: ProgrammingLanguageIds) -> u32 {
    match l {
        ProgrammingLanguageIds::Cpp17 => 84,
        ProgrammingLanguageIds::Python3 => 28,
        ProgrammingLanguageIds::PyPy3 => 73,
        ProgrammingLanguageIds::C99 => 0,
        ProgrammingLanguageIds::Java11 => 93,
        ProgrammingLanguageIds::Ruby => 68,
        ProgrammingLanguageIds::KotlinJvm => 69,
        ProgrammingLanguageIds::Swift => 74,
        ProgrammingLanguageIds::Text => 58,
        ProgrammingLanguageIds::Cs90DotNet => 86,
        ProgrammingLanguageIds::NodeJs => 17,
        ProgrammingLanguageIds::Go => 12,
        ProgrammingLanguageIds::D => 29,
        ProgrammingLanguageIds::Rust2018 => 94,
        ProgrammingLanguageIds::Cpp17Clang => 85,
    }
}

/// The language whose variant name is `name`, if any.
pub open spec fn language_named(name: Seq<char>) -> Option<ProgrammingLanguageIds> {
    if name == "Cpp17"@ {
        Some(ProgrammingLanguageIds::Cpp17)
    } else if name == "Python3"@ {
        Some(ProgrammingLanguageIds::Python3)
    } else if name == "PyPy3"@ {
        Some(ProgrammingLanguageIds::PyPy3)
    } else if name == "C99"@ {
        Some(ProgrammingLanguageIds::C99)
    } else if name == "Java11"@ {
        Some(ProgrammingLanguageIds::Java11)
    } else if name == "Ruby"@ {
        Some(ProgrammingLanguageIds::Ruby)
    } else if name == "KotlinJvm"@ {
        Some(ProgrammingLanguageIds::KotlinJvm)
    } else if name == "Swift"@ {
        Some(ProgrammingLanguageIds::Swift)
    } else if name == "Text"@ {
        Some(ProgrammingLanguageIds::Text)
    } else if name == "Cs90DotNet"@ {
        Some(ProgrammingLanguageIds::Cs90DotNet)
    } else if name == "NodeJs"@ {
        Some(ProgrammingLanguageIds::NodeJs)
    } else if name == "Go"@ {
        Some(ProgrammingLanguageIds::Go)
    } else if name == "D"@ {
        Some(ProgrammingLanguageIds::D)
    } else if name == "Rust2018"@ {
        Some(ProgrammingLanguageIds::Rust2018)
    } else if name == "Cpp17Clang"@ {
        Some(ProgrammingLanguageIds::Cpp17Clang)
    } else {
        None
    }
}

impl ProgrammingLanguageIds {
    /// The judge's numeric code of this language.
    pub fn code(&self) -> (r: u32)
        ensures
            r == language_code(*self),
    {
        match self {
            ProgrammingLanguageIds::Cpp17 => 84,
            ProgrammingLanguageIds::Python3 => 28,
            ProgrammingLanguageIds::PyPy3 => 73,
            ProgrammingLanguageIds::C99 => 0,
            ProgrammingLanguageIds::Java11 => 93,
            ProgrammingLanguageIds::Ruby => 68,
            ProgrammingLanguageIds::KotlinJvm => 69,
            ProgrammingLanguageIds::Swift => 74,
            ProgrammingLanguageIds::Text => 58,
            ProgrammingLanguageIds::Cs90DotNet => 86,
            ProgrammingLanguageIds::NodeJs => 17,
            ProgrammingLanguageIds::Go => 12,
            ProgrammingLanguageIds::D => 29,
            ProgrammingLanguageIds::Rust2018 => 94,
            ProgrammingLanguageIds::Cpp17Clang => 85,
        }
    }

    /// Resolves a language by its variant name; names outside the set give
    /// `None`.
    pub fn from_name(name: &str) -> (r: Option<ProgrammingLanguageIds>)
        ensures
            r == language_named(name@),
    {
        if same_text(name, "Cpp17") {
            Some(ProgrammingLanguageIds::Cpp17)
        } else if same_text(name, "Python3") {
            Some(ProgrammingLanguageIds::Python3)
        } else if same_text(name, "PyPy3") {
            Some(ProgrammingLanguageIds::PyPy3)
        } else if same_text(name, "C99") {
            Some(ProgrammingLanguageIds::C99)
        } else if same_text(name, "Java11") {
            Some(ProgrammingLanguageIds::Java11)
        } else if same_text(name, "Ruby") {
            Some(ProgrammingLanguageIds::Ruby)
        } else if same_text(name, "KotlinJvm") {
            Some(ProgrammingLanguageIds::KotlinJvm)
        } else if same_text(name, "Swift") {
            Some(ProgrammingLanguageIds::Swift)
        } else if same_text(name, "Text") {
            Some(ProgrammingLanguageIds::Text)
        } else if same_text(name, "Cs90DotNet") {
            Some(ProgrammingLanguageIds::Cs90DotNet)
        } else if same_text(name, "NodeJs") {
            Some(ProgrammingLanguageIds::NodeJs)
        } else if same_text(name, "Go") {
            Some(ProgrammingLanguageIds::Go)
        } else if same_text(name, "D") {
            Some(ProgrammingLanguageIds::D)
        } else if same_text(name, "Rust2018") {
            Some(ProgrammingLanguageIds::Rust2018)
        } else if same_text(name, "Cpp17Clang") {
            Some(ProgrammingLanguageIds::Cpp17Clang)
        } else {
            None
        }
    }
}

/// The judge's fetched home page.
#[derive(Clone, Debug)]
pub struct Main(pub String);

impl Main {
    /// The logged-in user's name. Its absence from the page means that the
    /// session is not logged in, and gives `ElementNotFound`.
    pub fn get_username(&self) -> (r: Result<String, ScrapeError>)
        ensures
            match username_of(matched_texts(self.0@, USERNAME_SELECTOR@)) {
                Ok(name) => r matches Ok(s) && s@ == name,
                Err(e) => r == Err::<String, ScrapeError>(e),
            },
    {
        match select_texts(self.0.as_str(), USERNAME_SELECTOR) {
            Some(texts) => username_from_texts(&texts),
            None => Err(ScrapeError::InvalidSelector),
        }
    }
}

/// The username that the texts of the page's username elements give: the
/// first element's text, empty when it has none; no element at all gives
/// `ElementNotFound`.
pub fn username_from_texts(texts: &Vec<Option<String>>) -> (r: Result<String, ScrapeError>)
    ensures
        match username_of(Some(opt_list_view(texts@))) {
            Ok(name) => r matches Ok(s) && s@ == name,
            Err(e) => r == Err::<String, ScrapeError>(e),
        },
{
    if texts.len() == 0 {
        return Err(ScrapeError::ElementNotFound);
    }
    assert(opt_list_view(texts@)[0] == opt_view(texts@[0]));
    match &texts[0] {
        Some(name) => Ok(name.clone()),
        None => Ok(String::new()),
    }
}

} // verus!
