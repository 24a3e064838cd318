use bojclient::poll::{PollAction, PollState};
use bojclient::session::CookieJar;
use bojclient::status::SolutionResult;
use bojclient::text::{decimal_string, parse_u32};
use bojclient::{LoginCookie, ProgrammingLanguageIds};

const LABELS: [(&str, SolutionResult); 8] = [
    ("맞았습니다!!", SolutionResult::Accepted),
    ("출력 형식이 잘못되었습니다", SolutionResult::WrongFormat),
    ("틀렸습니다", SolutionResult::Wrong),
    ("시간 초과", SolutionResult::Timeout),
    ("메모리 초과", SolutionResult::OutOfMemory),
    ("출력 초과", SolutionResult::TooMuchOutput),
    ("런타임 에러", SolutionResult::RuntimeError),
    ("컴파일 에러", SolutionResult::CompileError),
];

#[test]
fn every_table_label_decodes() {
    for (label, verdict) in LABELS.iter() {
        assert_eq!(SolutionResult::from_label(label), *verdict);
    }
}

#[test]
fn unknown_labels_decode_to_other() {
    assert_eq!(SolutionResult::from_label("채점 중"), SolutionResult::Other);
    assert_eq!(SolutionResult::from_label(""), SolutionResult::Other);
    assert_eq!(SolutionResult::from_label("Accepted"), SolutionResult::Other);
    assert_eq!(SolutionResult::from_label("맞았습니다!! "), SolutionResult::Other);
}

#[test]
fn label_round_trip() {
    for (_, verdict) in LABELS.iter() {
        let label = verdict.label().unwrap();
        assert_eq!(SolutionResult::from_label(label), *verdict);
    }
    assert_eq!(SolutionResult::Other.label(), None);
}

#[test]
fn apply_twice_equals_apply_once() {
    let login = LoginCookie { boj_auto_login: "aaaaa".to_string(), online_judge: "saafa".to_string() };
    let mut once = CookieJar::new();
    login.apply(&mut once);
    let mut twice = CookieJar::new();
    login.apply(&mut twice);
    login.apply(&mut twice);
    assert_eq!(once.pairs(), twice.pairs());
    assert_eq!(
        once.pairs(),
        vec![
            ("bojautologin".to_string(), "aaaaa".to_string()),
            ("OnlineJudge".to_string(), "saafa".to_string())
        ]
    );
}

#[test]
fn apply_replaces_earlier_login() {
    let mut jar = CookieJar::new();
    jar.set("theme", "dark");
    LoginCookie { boj_auto_login: "old".to_string(), online_judge: "old2".to_string() }.apply(&mut jar);
    LoginCookie { boj_auto_login: "new".to_string(), online_judge: "new2".to_string() }.apply(&mut jar);
    assert_eq!(
        jar.pairs(),
        vec![
            ("theme".to_string(), "dark".to_string()),
            ("bojautologin".to_string(), "new".to_string()),
            ("OnlineJudge".to_string(), "new2".to_string())
        ]
    );
}

#[test]
fn terminal_state_is_kept() {
    let state = PollState::Terminal(SolutionResult::Accepted);
    let after = state.step(SolutionResult::Other, 5).step(SolutionResult::Wrong, 5);
    assert_eq!(after, PollState::Terminal(SolutionResult::Accepted));
    assert_eq!(after.action(), PollAction::Stop);
}

#[test]
fn pending_becomes_terminal_on_final_verdict() {
    let state = PollState::start(SolutionResult::Other);
    assert_eq!(state, PollState::Pending { attempts: 0 });
    assert_eq!(state.action(), PollAction::WaitAndFetch);
    let state = state.step(SolutionResult::Other, 10);
    assert_eq!(state, PollState::Pending { attempts: 1 });
    let state = state.step(SolutionResult::RuntimeError, 10);
    assert_eq!(state, PollState::Terminal(SolutionResult::RuntimeError));
}

#[test]
fn polling_times_out() {
    let mut state = PollState::start(SolutionResult::Other);
    for _ in 0..3 {
        state = state.step(SolutionResult::Other, 3);
    }
    assert_eq!(state, PollState::TimedOut);
    assert_eq!(state.action(), PollAction::Stop);
}

#[test]
fn start_with_final_verdict_is_terminal() {
    assert_eq!(PollState::start(SolutionResult::CompileError), PollState::Terminal(SolutionResult::CompileError));
}

#[test]
fn language_names_and_codes() {
    assert_eq!(ProgrammingLanguageIds::from_name("Cpp17"), Some(ProgrammingLanguageIds::Cpp17));
    assert_eq!(ProgrammingLanguageIds::from_name("Rust2018").unwrap().code(), 94);
    assert_eq!(ProgrammingLanguageIds::C99.code(), 0);
    assert_eq!(ProgrammingLanguageIds::Python3.code(), 28);
    assert_eq!(ProgrammingLanguageIds::from_name("cpp17"), None);
    assert_eq!(ProgrammingLanguageIds::from_name("Brainfuck"), None);
}

#[test]
fn decimal_numbers() {
    assert_eq!(parse_u32("0"), Some(0));
    assert_eq!(parse_u32("4294967295"), Some(u32::MAX));
    assert_eq!(parse_u32("4294967296"), None);
    assert_eq!(parse_u32(""), None);
    assert_eq!(parse_u32("-1"), None);
    assert_eq!(parse_u32("12a"), None);
    assert_eq!(decimal_string(0), "0");
    assert_eq!(decimal_string(4294967295), "4294967295");
    assert_eq!(decimal_string(10171), "10171");
}
