//! What a whole pass guarantees, stated over the actions that a sequence of
//! events draws from the session.
use crate::change::{sha256_of, needs_compile};
use crate::command::{compile_call_spec, debug_call_spec, run_call_spec};
use crate::session::{
    accepts, hash_file_spec, initial, next, trace, ActionView, EventView, PhaseView, RunResult,
    RunnerError, SessionView,
};
use vstd::prelude::*;

verus! {

/// A trace that starts with an awaited event is that event's action followed
/// by the trace from the state it leads to.
pub proof fn lemma_trace_cons(s: SessionView, e: EventView, evs: Seq<EventView>)
    requires
        accepts(s.phase, e),
    ensures
        trace(s, seq![e] + evs) == seq![next(s, e).1] + trace(next(s, e).0, evs),
{
    let all = seq![e] + evs;
    assert(all[0] == e);
    assert(all.drop_first() =~= evs);
}

/// A finished pass draws no further action.
pub proof fn lemma_done_is_final(s: SessionView, evs: Seq<EventView>)
    requires
        s.phase is Done,
    ensures
        trace(s, evs) == Seq::<ActionView>::empty(),
{
}

/// Once the source has been checked, the compiler is never called again.
pub proof fn lemma_no_compile_after_check(s: SessionView, evs: Seq<EventView>)
    requires
        !(s.phase is CheckSource),
    ensures
        forall|i: int| 0 <= i < trace(s, evs).len() ==> !(#[trigger] trace(s, evs)[i] is Compile),
    decreases evs.len(),
{
    if evs.len() > 0 && accepts(s.phase, evs[0]) {
        lemma_no_compile_after_check(next(s, evs[0]).0, evs.drop_first());
    }
}

/// Once the debugger has been called (or the pass is over), it is never
/// called again.
pub proof fn lemma_no_debug_after_debug(s: SessionView, evs: Seq<EventView>)
    requires
        s.phase is Debugging || s.phase is Done,
    ensures
        forall|i: int| 0 <= i < trace(s, evs).len() ==> !(#[trigger] trace(s, evs)[i] is Debug),
    decreases evs.len(),
{
    if evs.len() > 0 && accepts(s.phase, evs[0]) {
        lemma_no_debug_after_debug(next(s, evs[0]).0, evs.drop_first());
    }
}

/// The digest is written only after the compiler exited zero, and it is the
/// digest of the source that was compiled.
pub proof fn lemma_hash_saved_only_after_compile(s: SessionView, e: EventView)
    requires
        accepts(s.phase, e),
        next(s, e).1 is SaveHash,
    ensures
        e == (EventView::Compiled { success: true }),
        s.phase is Compiling,
        next(s, e).1 == (ActionView::SaveHash { sidecar: hash_file_spec(), digest: s.phase->Compiling_0 }),
{
}

/// An unchanged source (its stored digest present and equal to the digest of
/// its content) is never compiled in the whole pass.
pub proof fn lemma_unchanged_source_skips_compiler(
    code: Seq<char>,
    output: Seq<char>,
    infile: Seq<char>,
    src: Seq<u8>,
    evs: Seq<EventView>,
)
    ensures
        ({
            let t = trace(
                initial(code, output, infile),
                seq![EventView::SourceLoaded { source: Some(src), stored: Some(sha256_of(src)) }] + evs,
            );
            &&& t.len() > 0
            &&& t[0] == (ActionView::ShowInput { infile })
            &&& forall|i: int| 0 <= i < t.len() ==> !(#[trigger] t[i] is Compile)
        }),
{
    let s = initial(code, output, infile);
    let e = EventView::SourceLoaded { source: Some(src), stored: Some(sha256_of(src)) };
    lemma_trace_cons(s, e, evs);
    lemma_no_compile_after_check(next(s, e).0, evs);
}

/// A changed source (a stored digest that differs from the digest of its
/// content) is compiled exactly once, and after a successful compile the
/// stored digest is overwritten with the new one.
pub proof fn lemma_changed_source_compiles_once(
    code: Seq<char>,
    output: Seq<char>,
    infile: Seq<char>,
    src: Seq<u8>,
    stored: Seq<u8>,
    evs: Seq<EventView>,
)
    requires
        stored != sha256_of(src),
    ensures
        ({
            let t = trace(
                initial(code, output, infile),
                seq![EventView::SourceLoaded { source: Some(src), stored: Some(stored) }] + evs,
            );
            &&& t.len() > 0
            &&& t[0] == ActionView::Compile(compile_call_spec(code, output))
            &&& forall|i: int| 1 <= i < t.len() ==> !(#[trigger] t[i] is Compile)
            &&& evs.len() > 0 && evs[0] == (EventView::Compiled { success: true }) ==> t.len() > 1
                && t[1] == (ActionView::SaveHash { sidecar: hash_file_spec(), digest: sha256_of(src) })
        }),
{
    first_pass_compiles(code, output, infile, src, Some(stored), evs);
}

/// With no stored digest the source is compiled, whatever it holds, exactly
/// once, and a successful compile stores its digest.
pub proof fn lemma_first_run_compiles(
    code: Seq<char>,
    output: Seq<char>,
    infile: Seq<char>,
    src: Seq<u8>,
    evs: Seq<EventView>,
)
    ensures
        ({
            let t = trace(
                initial(code, output, infile),
                seq![EventView::SourceLoaded { source: Some(src), stored: None }] + evs,
            );
            &&& t.len() > 0
            &&& t[0] == ActionView::Compile(compile_call_spec(code, output))
            &&& forall|i: int| 1 <= i < t.len() ==> !(#[trigger] t[i] is Compile)
            &&& evs.len() > 0 && evs[0] == (EventView::Compiled { success: true }) ==> t.len() > 1
                && t[1] == (ActionView::SaveHash { sidecar: hash_file_spec(), digest: sha256_of(src) })
        }),
{
    first_pass_compiles(code, output, infile, src, None, evs);
}

proof fn first_pass_compiles(
    code: Seq<char>,
    output: Seq<char>,
    infile: Seq<char>,
    src: Seq<u8>,
    stored: Option<Seq<u8>>,
    evs: Seq<EventView>,
)
    requires
        needs_compile(sha256_of(src), stored),
    ensures
        ({
            let t = trace(
                initial(code, output, infile),
                seq![EventView::SourceLoaded { source: Some(src), stored }] + evs,
            );
            &&& t.len() > 0
            &&& t[0] == ActionView::Compile(compile_call_spec(code, output))
            &&& forall|i: int| 1 <= i < t.len() ==> !(#[trigger] t[i] is Compile)
            &&& evs.len() > 0 && evs[0] == (EventView::Compiled { success: true }) ==> t.len() > 1
                && t[1] == (ActionView::SaveHash { sidecar: hash_file_spec(), digest: sha256_of(src) })
        }),
{
    let s = initial(code, output, infile);
    let e = EventView::SourceLoaded { source: Some(src), stored };
    lemma_trace_cons(s, e, evs);
    let s1 = next(s, e).0;
    lemma_no_compile_after_check(s1, evs);
    let t = trace(s, seq![e] + evs);
    assert forall|i: int| 1 <= i < t.len() implies !(#[trigger] t[i] is Compile) by {
        assert(t[i] == trace(s1, evs)[i - 1]);
    }
    if evs.len() > 0 && evs[0] == (EventView::Compiled { success: true }) {
        lemma_trace_cons(s1, evs[0], evs.drop_first());
        assert(seq![evs[0]] + evs.drop_first() =~= evs);
    }
}

/// When the compiler exits non-zero the pass ends with that error and the
/// stored digest is never written, so the next pass on the same source
/// compiles again.
pub proof fn lemma_failed_compile_keeps_hash(
    code: Seq<char>,
    output: Seq<char>,
    infile: Seq<char>,
    src: Seq<u8>,
    stored: Option<Seq<u8>>,
    evs: Seq<EventView>,
)
    requires
        needs_compile(sha256_of(src), stored),
    ensures
        trace(
            initial(code, output, infile),
            seq![
                EventView::SourceLoaded { source: Some(src), stored },
                EventView::Compiled { success: false },
            ] + evs,
        ) == seq![
            ActionView::Compile(compile_call_spec(code, output)),
            ActionView::Finish(Err(RunnerError::CompileFailed)),
        ],
{
    let s = initial(code, output, infile);
    let e0 = EventView::SourceLoaded { source: Some(src), stored };
    let e1 = EventView::Compiled { success: false };
    let rest = seq![e1] + evs;
    assert(seq![e0, e1] + evs =~= seq![e0] + rest);
    lemma_trace_cons(s, e0, rest);
    let s1 = next(s, e0).0;
    lemma_trace_cons(s1, e1, evs);
    lemma_done_is_final(next(s1, e1).0, evs);
    assert(trace(s, seq![e0] + rest) =~= seq![
        ActionView::Compile(compile_call_spec(code, output)),
        ActionView::Finish(Err(RunnerError::CompileFailed)),
    ]);
}

/// When the program exits zero the pass ends there: the debugger is never
/// called.
pub proof fn lemma_clean_run_skips_debugger(
    s: SessionView,
    elapsed_nanos: u128,
    evs: Seq<EventView>,
)
    requires
        s.phase is ShowingInput,
    ensures
        trace(
            s,
            seq![
                EventView::InputShown { found: true },
                EventView::Exited { success: true, elapsed_nanos },
            ] + evs,
        ) == seq![
            ActionView::Run(run_call_spec(s.output, s.infile)),
            ActionView::Finish(Ok(RunResult::Ran(elapsed_nanos))),
        ],
{
    let e0 = EventView::InputShown { found: true };
    let e1 = EventView::Exited { success: true, elapsed_nanos };
    let rest = seq![e1] + evs;
    assert(seq![e0, e1] + evs =~= seq![e0] + rest);
    lemma_trace_cons(s, e0, rest);
    let s1 = next(s, e0).0;
    lemma_trace_cons(s1, e1, evs);
    lemma_done_is_final(next(s1, e1).0, evs);
    assert(trace(s, seq![e0] + rest) =~= seq![
        ActionView::Run(run_call_spec(s.output, s.infile)),
        ActionView::Finish(Ok(RunResult::Ran(elapsed_nanos))),
    ]);
}

/// When the program exits non-zero the debugger is called exactly once, on
/// the program and the same input file that the run was fed.
pub proof fn lemma_failed_run_debugs_once(
    s: SessionView,
    elapsed_nanos: u128,
    evs: Seq<EventView>,
)
    requires
        s.phase is ShowingInput,
    ensures
        ({
            let t = trace(
                s,
                seq![
                    EventView::InputShown { found: true },
                    EventView::Exited { success: false, elapsed_nanos },
                ] + evs,
            );
            &&& t.len() >= 2
            &&& t[0] == ActionView::Run(run_call_spec(s.output, s.infile))
            &&& t[1] == ActionView::Debug(debug_call_spec(s.output, s.infile))
            &&& forall|i: int| 2 <= i < t.len() ==> !(#[trigger] t[i] is Debug)
        }),
{
    let e0 = EventView::InputShown { found: true };
    let e1 = EventView::Exited { success: false, elapsed_nanos };
    let rest = seq![e1] + evs;
    assert(seq![e0, e1] + evs =~= seq![e0] + rest);
    lemma_trace_cons(s, e0, rest);
    let s1 = next(s, e0).0;
    lemma_trace_cons(s1, e1, evs);
    let s2 = next(s1, e1).0;
    lemma_no_debug_after_debug(s2, evs);
    let t = trace(s, seq![e0] + rest);
    assert forall|i: int| 2 <= i < t.len() implies !(#[trigger] t[i] is Debug) by {
        assert(t[i] == trace(s2, evs)[i - 2]);
    }
}

/// A missing source file ends the pass with that error before the compiler
/// is called.
pub proof fn lemma_missing_source_is_fatal(
    code: Seq<char>,
    output: Seq<char>,
    infile: Seq<char>,
    stored: Option<Seq<u8>>,
    evs: Seq<EventView>,
)
    ensures
        trace(
            initial(code, output, infile),
            seq![EventView::SourceLoaded { source: None, stored }] + evs,
        ) == seq![ActionView::Finish(Err(RunnerError::SourceNotFound))],
{
    let s = initial(code, output, infile);
    let e = EventView::SourceLoaded { source: None, stored };
    lemma_trace_cons(s, e, evs);
    lemma_done_is_final(next(s, e).0, evs);
    assert(trace(s, seq![e] + evs) =~= seq![ActionView::Finish(Err(RunnerError::SourceNotFound))]);
}

/// A missing input file ends the pass with that error before the program is
/// run.
pub proof fn lemma_missing_input_is_fatal(s: SessionView, evs: Seq<EventView>)
    requires
        s.phase is ShowingInput,
    ensures
        trace(s, seq![EventView::InputShown { found: false }] + evs)
            == seq![ActionView::Finish(Err(RunnerError::InputNotFound))],
{
    let e = EventView::InputShown { found: false };
    lemma_trace_cons(s, e, evs);
    lemma_done_is_final(next(s, e).0, evs);
    assert(trace(s, seq![e] + evs) =~= seq![ActionView::Finish(Err(RunnerError::InputNotFound))]);
}

} // verus!
