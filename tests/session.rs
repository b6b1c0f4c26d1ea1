use ravi::session::{
    hash_file, run_result, Action, Config, Event, RunResult, RunnerError, Session,
};

fn config() -> Config {
    Config { code: "a.cpp".to_string(), output: "ex".to_string(), infile: "in.in".to_string() }
}

fn begin() -> Session {
    let (s, a) = Session::start(config());
    match a {
        Action::LoadSource { code, sidecar } => {
            assert_eq!(code, "a.cpp");
            assert_eq!(sidecar, ".codehash");
        }
        _ => panic!("a pass starts by loading the source"),
    }
    s
}

fn feed(s: &mut Session, e: Event) -> Action {
    assert!(s.awaits(&e));
    s.step(e)
}

const SUM: &[u8] = b"#include <cstdio>\nint main(){int a,b;scanf(\"%d %d\",&a,&b);printf(\"%d\\n\",a+b);}\n";
const CRASH: &[u8] = b"int main(){int *p=0;return *p;}\n";

/// Runs a pass up to the point where the program is launched; returns the
/// digest that was saved, if the source was compiled.
fn to_run(s: &mut Session, source: &[u8], stored: Option<Vec<u8>>) -> Option<Vec<u8>> {
    let mut saved = None;
    let mut a = feed(s, Event::SourceLoaded { source: Some(source.to_vec()), stored });
    if let Action::Compile(c) = &a {
        assert_eq!(c.args, vec!["-g", "a.cpp", "-o", "ex"]);
        a = feed(s, Event::Compiled { success: true });
        match a {
            Action::SaveHash { sidecar, digest } => {
                assert_eq!(sidecar, ".codehash");
                saved = Some(digest);
            }
            _ => panic!("a successful compile saves the digest"),
        }
        a = feed(s, Event::HashSaved);
    }
    match a {
        Action::ShowInput { infile } => assert_eq!(infile, "in.in"),
        _ => panic!("the input is shown before the run"),
    }
    match feed(s, Event::InputShown { found: true }) {
        Action::Run(c) => {
            assert_eq!(c.program, "ex");
            assert_eq!(c.stdin, Some("in.in".to_string()));
        }
        _ => panic!("the program runs after its input is shown"),
    }
    saved
}

#[test]
fn scenario_compile_skip_and_debug() {
    // first pass: no sidecar, compile, run cleanly
    let mut s = begin();
    let d1 = to_run(&mut s, SUM, None).expect("first pass compiles");
    assert_eq!(d1.len(), 32);
    let a = feed(&mut s, Event::Exited { success: true, elapsed_nanos: 1500 });
    assert!(matches!(a, Action::Finish(Ok(RunResult::Ran(1500)))));
    assert!(!s.awaits(&Event::DebuggerExited { success: true }));

    // second pass: same source, compile skipped
    let mut s = begin();
    assert_eq!(to_run(&mut s, SUM, Some(d1.clone())), None);
    assert!(matches!(
        feed(&mut s, Event::Exited { success: true, elapsed_nanos: 9 }),
        Action::Finish(Ok(RunResult::Ran(9)))
    ));

    // third pass: edited source, recompiled, crashes, debugged once
    let mut s = begin();
    let d2 = to_run(&mut s, CRASH, Some(d1.clone())).expect("an edit recompiles");
    assert_ne!(d1, d2);
    match feed(&mut s, Event::Exited { success: false, elapsed_nanos: 3 }) {
        Action::Debug(c) => {
            assert_eq!(c.program, "gdb");
            assert_eq!(c.args, vec!["-q", "-ex", "r < in.in", "-ex", "bt", "-ex", "q", "ex"]);
        }
        _ => panic!("a failed run is debugged"),
    }
    assert!(matches!(
        feed(&mut s, Event::DebuggerExited { success: true }),
        Action::Finish(Ok(RunResult::Failed))
    ));
}

#[test]
fn failed_compile_does_not_save_digest() {
    let mut s = begin();
    assert!(matches!(
        feed(&mut s, Event::SourceLoaded { source: Some(SUM.to_vec()), stored: Some(vec![0; 32]) }),
        Action::Compile(_)
    ));
    assert!(matches!(
        feed(&mut s, Event::Compiled { success: false }),
        Action::Finish(Err(RunnerError::CompileFailed))
    ));
    assert!(!s.awaits(&Event::HashSaved));

    // the sidecar still holds the old digest: the next pass compiles again
    let mut s = begin();
    assert!(matches!(
        feed(&mut s, Event::SourceLoaded { source: Some(SUM.to_vec()), stored: Some(vec![0; 32]) }),
        Action::Compile(_)
    ));
}

#[test]
fn missing_source_is_fatal() {
    let mut s = begin();
    assert!(matches!(
        feed(&mut s, Event::SourceLoaded { source: None, stored: None }),
        Action::Finish(Err(RunnerError::SourceNotFound))
    ));
    assert!(!s.awaits(&Event::Compiled { success: true }));
}

#[test]
fn missing_input_is_fatal() {
    let mut s = begin();
    let d = match feed(&mut s, Event::SourceLoaded { source: Some(SUM.to_vec()), stored: None }) {
        Action::Compile(_) => match feed(&mut s, Event::Compiled { success: true }) {
            Action::SaveHash { digest, .. } => digest,
            _ => panic!("a successful compile saves the digest"),
        },
        _ => panic!("first pass compiles"),
    };
    let mut s = begin();
    assert!(matches!(
        feed(&mut s, Event::SourceLoaded { source: Some(SUM.to_vec()), stored: Some(d) }),
        Action::ShowInput { .. }
    ));
    assert!(matches!(
        feed(&mut s, Event::InputShown { found: false }),
        Action::Finish(Err(RunnerError::InputNotFound))
    ));
    assert!(!s.awaits(&Event::Exited { success: true, elapsed_nanos: 0 }));
}

#[test]
fn spawn_failures_are_fatal() {
    let mut s = begin();
    feed(&mut s, Event::SourceLoaded { source: Some(CRASH.to_vec()), stored: None });
    assert!(matches!(
        feed(&mut s, Event::SpawnFailed),
        Action::Finish(Err(RunnerError::ProcessSpawnFailed))
    ));

    let mut s = begin();
    to_run(&mut s, CRASH, None);
    assert!(matches!(
        feed(&mut s, Event::SpawnFailed),
        Action::Finish(Err(RunnerError::ProcessSpawnFailed))
    ));

    let mut s = begin();
    to_run(&mut s, CRASH, None);
    feed(&mut s, Event::Exited { success: false, elapsed_nanos: 1 });
    assert!(matches!(
        feed(&mut s, Event::SpawnFailed),
        Action::Finish(Err(RunnerError::ProcessSpawnFailed))
    ));
}

#[test]
fn unexpected_events_are_not_awaited() {
    let s = begin();
    assert!(!s.awaits(&Event::HashSaved));
    assert!(!s.awaits(&Event::SpawnFailed));
    assert!(s.awaits(&Event::SourceLoaded { source: None, stored: None }));
}

#[test]
fn run_results() {
    assert_eq!(run_result(true, 42), RunResult::Ran(42));
    assert_eq!(run_result(false, 42), RunResult::Failed);
}

#[test]
fn sidecar_name() {
    assert_eq!(hash_file(), ".codehash");
}
