//! One pass of the loop as a state machine: the caller performs each action
//! (reads a file, spawns a process) and hands back what came of it as an
//! event; the session decides the next action.
//!
//! `Start -> {skip compile | compile -> save digest} -> show input -> run ->
//! {done | debug -> done}`, with no way back and no retry.
use crate::change::{check_code_changed, needs_compile, sha256_of, stored_view, CodeState};
use crate::command::{
    compile_call, compile_call_spec, debug_call, debug_call_spec, run_call, run_call_spec,
    CallView, ProcessCall,
};
use vstd::prelude::*;

verus! {

/// The sidecar file that holds the digest of the last successful compile.
pub open spec fn hash_file_spec() -> Seq<char> {
    ".codehash"@
}

/// The name of the sidecar digest file.
pub fn hash_file() -> (r: String)
    ensures
        r@ == hash_file_spec(),
{
    ".codehash".to_owned()
}

/// The fatal errors of a pass; each ends it at once.
#[derive(Clone, Copy, Debug, PartialEq, Eq, Structural)]
pub enum RunnerError {
    /// The source file could not be read.
    SourceNotFound,
    /// The input file could not be read.
    InputNotFound,
    /// The compiler exited non-zero.
    CompileFailed,
    /// An outside process could not be launched at all.
    ProcessSpawnFailed,
}

/// How the program under test ended.
#[derive(Clone, Copy, Debug, PartialEq, Eq, Structural)]
pub enum RunResult {
    /// It exited zero after the given wall-clock time, in nanoseconds.
    Ran(u128),
    /// It exited non-zero.
    Failed,
}

/// Classifies a finished run by its exit status.
pub fn run_result(success: bool, elapsed_nanos: u128) -> (r: RunResult)
    ensures
        r == (if success {
            RunResult::Ran(elapsed_nanos)
        } else {
            RunResult::Failed
        }),
{
    if success {
        RunResult::Ran(elapsed_nanos)
    } else {
        RunResult::Failed
    }
}

/// The three paths a pass works on.
pub struct Config {
    /// The source file.
    pub code: String,
    /// The compiled program.
    pub output: String,
    /// The file fed to the program as its standard input.
    pub infile: String,
}

/// Where a pass stands: which event it waits for.
pub enum Phase {
    /// Waits for the source and the stored digest.
    CheckSource,
    /// Waits for the compiler; holds the digest of the source being compiled.
    Compiling(Vec<u8>),
    /// Waits for the new digest to be written.
    SavingHash,
    /// Waits for the input file to be shown.
    ShowingInput,
    /// Waits for the program to exit.
    Running,
    /// Waits for the debugger to exit.
    Debugging,
    /// Over; waits for nothing.
    Done,
}

pub enum PhaseView {
    CheckSource,
    Compiling(Seq<u8>),
    SavingHash,
    ShowingInput,
    Running,
    Debugging,
    Done,
}

impl View for Phase {
    type V = PhaseView;

    open spec fn view(&self) -> PhaseView {
        match self {
            Phase::CheckSource => PhaseView::CheckSource,
            Phase::Compiling(d) => PhaseView::Compiling(d@),
            Phase::SavingHash => PhaseView::SavingHash,
            Phase::ShowingInput => PhaseView::ShowingInput,
            Phase::Running => PhaseView::Running,
            Phase::Debugging => PhaseView::Debugging,
            Phase::Done => PhaseView::Done,
        }
    }
}

/// What came of the last action.
pub enum Event {
    /// The source file's bytes (`None`: not found) and the stored digest
    /// (`None`: no sidecar file).
    SourceLoaded { source: Option<Vec<u8>>, stored: Option<Vec<u8>> },
    /// The compiler exited, zero or not.
    Compiled { success: bool },
    /// The new digest was written.
    HashSaved,
    /// The input file was shown, or could not be read.
    InputShown { found: bool },
    /// The program exited, zero or not, after the given time.
    Exited { success: bool, elapsed_nanos: u128 },
    /// The debugger exited, cleanly or not.
    DebuggerExited { success: bool },
    /// The process of the last action could not be launched.
    SpawnFailed,
}

pub enum EventView {
    SourceLoaded { source: Option<Seq<u8>>, stored: Option<Seq<u8>> },
    Compiled { success: bool },
    HashSaved,
    InputShown { found: bool },
    Exited { success: bool, elapsed_nanos: u128 },
    DebuggerExited { success: bool },
    SpawnFailed,
}

impl View for Event {
    type V = EventView;

    open spec fn view(&self) -> EventView {
        match self {
            Event::SourceLoaded { source, stored } => EventView::SourceLoaded {
                source: stored_view(*source),
                stored: stored_view(*stored),
            },
            Event::Compiled { success } => EventView::Compiled { success: *success },
            Event::HashSaved => EventView::HashSaved,
            Event::InputShown { found } => EventView::InputShown { found: *found },
            Event::Exited { success, elapsed_nanos } => EventView::Exited {
                success: *success,
                elapsed_nanos: *elapsed_nanos,
            },
            Event::DebuggerExited { success } => EventView::DebuggerExited { success: *success },
            Event::SpawnFailed => EventView::SpawnFailed,
        }
    }
}

/// What the caller is to do next.
pub enum Action {
    /// Read the source file and the sidecar digest file.
    LoadSource { code: String, sidecar: String },
    /// Run the compiler.
    Compile(ProcessCall),
    /// Overwrite the sidecar file with the digest.
    SaveHash { sidecar: String, digest: Vec<u8> },
    /// Print the input file's content.
    ShowInput { infile: String },
    /// Run the compiled program.
    Run(ProcessCall),
    /// Run the debugger.
    Debug(ProcessCall),
    /// Stop, with how the pass ended.
    Finish(Result<RunResult, RunnerError>),
}

pub enum ActionView {
    LoadSource { code: Seq<char>, sidecar: Seq<char> },
    Compile(CallView),
    SaveHash { sidecar: Seq<char>, digest: Seq<u8> },
    ShowInput { infile: Seq<char> },
    Run(CallView),
    Debug(CallView),
    Finish(Result<RunResult, RunnerError>),
}

impl View for Action {
    type V = ActionView;

    open spec fn view(&self) -> ActionView {
        match self {
            Action::LoadSource { code, sidecar } => ActionView::LoadSource {
                code: code@,
                sidecar: sidecar@,
            },
            Action::Compile(c) => ActionView::Compile(c@),
            Action::SaveHash { sidecar, digest } => ActionView::SaveHash {
                sidecar: sidecar@,
                digest: digest@,
            },
            Action::ShowInput { infile } => ActionView::ShowInput { infile: infile@ },
            Action::Run(c) => ActionView::Run(c@),
            Action::Debug(c) => ActionView::Debug(c@),
            Action::Finish(r) => ActionView::Finish(*r),
        }
    }
}

/// One pass of the compile-run-debug loop.
pub struct Session {
    pub config: Config,
    pub phase: Phase,
}

pub struct SessionView {
    pub code: Seq<char>,
    pub output: Seq<char>,
    pub infile: Seq<char>,
    pub phase: PhaseView,
}

impl View for Session {
    type V = SessionView;

    open spec fn view(&self) -> SessionView {
        SessionView {
            code: self.config.code@,
            output: self.config.output@,
            infile: self.config.infile@,
            phase: self.phase@,
        }
    }
}

/// A fresh pass on the given paths.
pub open spec fn initial(code: Seq<char>, output: Seq<char>, infile: Seq<char>) -> SessionView {
    SessionView { code, output, infile, phase: PhaseView::CheckSource }
}

/// The events that a phase waits for.
pub open spec fn accepts(p: PhaseView, e: EventView) -> bool {
    match p {
        PhaseView::CheckSource => e is SourceLoaded,
        PhaseView::Compiling(_) => e is Compiled || e is SpawnFailed,
        PhaseView::SavingHash => e is HashSaved,
        PhaseView::ShowingInput => e is InputShown,
        PhaseView::Running => e is Exited || e is SpawnFailed,
        PhaseView::Debugging => e is DebuggerExited || e is SpawnFailed,
        PhaseView::Done => false,
    }
}

pub open spec fn moved(s: SessionView, p: PhaseView) -> SessionView {
    SessionView { phase: p, ..s }
}

pub open spec fn finished(s: SessionView, r: Result<RunResult, RunnerError>) -> (SessionView, ActionView) {
    (moved(s, PhaseView::Done), ActionView::Finish(r))
}

/// The digest held while the compiler runs.
pub open spec fn pending_digest(p: PhaseView) -> Seq<u8> {
    match p {
        PhaseView::Compiling(d) => d,
        _ => Seq::empty(),
    }
}

/// The next state and action, for an event that the state waits for.
pub open spec fn next(s: SessionView, e: EventView) -> (SessionView, ActionView) {
    match e {
        EventView::SourceLoaded { source, stored } => match source {
            None => finished(s, Err(RunnerError::SourceNotFound)),
            Some(src) => if needs_compile(sha256_of(src), stored) {
                (
                    moved(s, PhaseView::Compiling(sha256_of(src))),
                    ActionView::Compile(compile_call_spec(s.code, s.output)),
                )
            } else {
                (moved(s, PhaseView::ShowingInput), ActionView::ShowInput { infile: s.infile })
            },
        },
        EventView::Compiled { success } => if success {
            (
                moved(s, PhaseView::SavingHash),
                ActionView::SaveHash { sidecar: hash_file_spec(), digest: pending_digest(s.phase) },
            )
        } else {
            finished(s, Err(RunnerError::CompileFailed))
        },
        EventView::HashSaved => (
            moved(s, PhaseView::ShowingInput),
            ActionView::ShowInput { infile: s.infile },
        ),
        EventView::InputShown { found } => if found {
            (moved(s, PhaseView::Running), ActionView::Run(run_call_spec(s.output, s.infile)))
        } else {
            finished(s, Err(RunnerError::InputNotFound))
        },
        EventView::Exited { success, elapsed_nanos } => if success {
            finished(s, Ok(RunResult::Ran(elapsed_nanos)))
        } else {
            (moved(s, PhaseView::Debugging), ActionView::Debug(debug_call_spec(s.output, s.infile)))
        },
        EventView::DebuggerExited { .. } => finished(s, Ok(RunResult::Failed)),
        EventView::SpawnFailed => finished(s, Err(RunnerError::ProcessSpawnFailed)),
    }
}

/// The actions that a sequence of events draws from a state, up to the
/// first event that the state does not wait for.
pub open spec fn trace(s: SessionView, evs: Seq<EventView>) -> Seq<ActionView>
    decreases evs.len(),
{
    if evs.len() == 0 || !accepts(s.phase, evs[0]) {
        Seq::empty()
    } else {
        seq![next(s, evs[0]).1] + trace(next(s, evs[0]).0, evs.drop_first())
    }
}

impl Session {
    /// Starts a pass: the first action reads the source and the stored digest.
    pub fn start(config: Config) -> (r: (Session, Action))
        ensures
            r.0@ == initial(config.code@, config.output@, config.infile@),
            r.1@ == (ActionView::LoadSource { code: config.code@, sidecar: hash_file_spec() }),
    {
        let code = config.code.clone();
        (Session { config, phase: Phase::CheckSource }, Action::LoadSource { code, sidecar: hash_file() })
    }

    /// Whether the session waits for this event.
    pub fn awaits(&self, event: &Event) -> (r: bool)
        ensures
            r == accepts(self@.phase, event@),
    {
        match self.phase {
            Phase::CheckSource => matches!(event, Event::SourceLoaded { .. }),
            Phase::Compiling(_) => matches!(event, Event::Compiled { .. } | Event::SpawnFailed),
            Phase::SavingHash => matches!(event, Event::HashSaved),
            Phase::ShowingInput => matches!(event, Event::InputShown { .. }),
            Phase::Running => matches!(event, Event::Exited { .. } | Event::SpawnFailed),
            Phase::Debugging => matches!(event, Event::DebuggerExited { .. } | Event::SpawnFailed),
            Phase::Done => false,
        }
    }

    /// Takes what came of the last action and gives the next one.
    pub fn step(&mut self, event: Event) -> (a: Action)
        requires
            accepts(old(self)@.phase, event@),
        ensures
            (final(self)@, a@) == next(old(self)@, event@),
    {
        let ghost s = self@;
        match event {
            Event::SourceLoaded { source, stored } => match source {
                None => {
                    self.phase = Phase::Done;
                    Action::Finish(Err(RunnerError::SourceNotFound))
                },
                Some(src) => match check_code_changed(src.as_slice(), &stored) {
                    CodeState::Changed(d) => {
                        self.phase = Phase::Compiling(d);
                        Action::Compile(compile_call(self.config.code.as_str(), self.config.output.as_str()))
                    },
                    CodeState::Same => {
                        self.phase = Phase::ShowingInput;
                        Action::ShowInput { infile: self.config.infile.clone() }
                    },
                },
            },
            Event::Compiled { success } => {
                if success {
                    let mut p = Phase::SavingHash;
                    std::mem::swap(&mut self.phase, &mut p);
                    let digest = match p {
                        Phase::Compiling(d) => d,
                        _ => Vec::new(),
                    };
                    proof {
                        assert(digest@ =~= pending_digest(s.phase));
                    }
                    Action::SaveHash { sidecar: hash_file(), digest }
                } else {
                    self.phase = Phase::Done;
                    Action::Finish(Err(RunnerError::CompileFailed))
                }
            },
            Event::HashSaved => {
                self.phase = Phase::ShowingInput;
                Action::ShowInput { infile: self.config.infile.clone() }
            },
            Event::InputShown { found } => {
                if found {
                    self.phase = Phase::Running;
                    Action::Run(run_call(self.config.output.as_str(), self.config.infile.as_str()))
                } else {
                    self.phase = Phase::Done;
                    Action::Finish(Err(RunnerError::InputNotFound))
                }
            },
            Event::Exited { success, elapsed_nanos } => {
                match run_result(success, elapsed_nanos) {
                    RunResult::Ran(t) => {
                        self.phase = Phase::Done;
                        Action::Finish(Ok(RunResult::Ran(t)))
                    },
                    RunResult::Failed => {
                        self.phase = Phase::Debugging;
                        Action::Debug(debug_call(self.config.output.as_str(), self.config.infile.as_str()))
                    },
                }
            },
            Event::DebuggerExited { .. } => {
                self.phase = Phase::Done;
                Action::Finish(Ok(RunResult::Failed))
            },
            Event::SpawnFailed => {
                self.phase = Phase::Done;
                Action::Finish(Err(RunnerError::ProcessSpawnFailed))
            },
        }
    }
}

} // verus!
