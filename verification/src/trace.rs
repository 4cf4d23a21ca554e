//! Laws of the streaming loop: what a whole run of the decision machine
//! delivers to the consumer.
//!
//! A run is modelled as a fold of [`spec_step`] over the sequence of
//! events the driver observes. For a whole exchange — the tool emits some
//! lines, the resolver succeeds or fails on each, the output then ends —
//! the lemmas here pin down the exact action trace, and with it which
//! result paths have their descriptors forwarded, in which order.

use vstd::prelude::*;
use crate::line::{joined, trimmed};
use crate::pump::{ActionModel, EventModel, Phase, spec_step};

verus! {

/// The run of the machine over a sequence of events, from `phase`: the
/// final phase, and the actions handed back, one per event, in order.
pub open spec fn run(cwd: Seq<char>, phase: Phase, evs: Seq<EventModel>) -> (Phase, Seq<
    ActionModel,
>)
    decreases evs.len(),
{
    if evs.len() == 0 {
        (phase, Seq::empty())
    } else {
        let first = spec_step(cwd, phase, evs[0]);
        let rest = run(cwd, first.0, evs.drop_first());
        (rest.0, seq![first.1] + rest.1)
    }
}

/// Running one event sequence after another runs the second from where
/// the first left off, and the action traces follow each other.
pub proof fn lemma_run_concat(
    cwd: Seq<char>,
    phase: Phase,
    a: Seq<EventModel>,
    b: Seq<EventModel>,
)
    ensures
        run(cwd, phase, a + b).0 == run(cwd, run(cwd, phase, a).0, b).0,
        run(cwd, phase, a + b).1 == run(cwd, phase, a).1 + run(cwd, run(cwd, phase, a).0, b).1,
    decreases a.len(),
{
    if a.len() == 0 {
        assert(a + b =~= b);
        assert(run(cwd, phase, a).1 + run(cwd, phase, b).1 =~= run(cwd, phase, b).1);
    } else {
        let first = spec_step(cwd, phase, a[0]);
        lemma_run_concat(cwd, first.0, a.drop_first(), b);
        assert((a + b).drop_first() =~= a.drop_first() + b);
        assert(run(cwd, phase, a + b).1 =~= run(cwd, phase, a).1 + run(
            cwd,
            run(cwd, phase, a).0,
            b,
        ).1);
    }
}

/// The events of one line's exchange: the line itself, then — if it
/// survives trimming non-empty — the resolver's verdict, then — if the
/// verdict was success — the outcome of forwarding.
pub open spec fn line_events(l: Seq<char>, ok: bool) -> Seq<EventModel> {
    if trimmed(l).len() == 0 {
        seq![EventModel::Line(l)]
    } else if ok {
        seq![EventModel::Line(l), EventModel::ResolvedOk, EventModel::Forwarded]
    } else {
        seq![EventModel::Line(l), EventModel::ResolvedErr]
    }
}

/// The actions of one line's exchange, matching [`line_events`].
pub open spec fn line_actions(cwd: Seq<char>, l: Seq<char>, ok: bool) -> Seq<ActionModel> {
    if trimmed(l).len() == 0 {
        seq![ActionModel::NextLine]
    } else if ok {
        seq![
            ActionModel::Resolve(joined(cwd, trimmed(l))),
            ActionModel::Forward,
            ActionModel::NextLine,
        ]
    } else {
        seq![ActionModel::Resolve(joined(cwd, trimmed(l))), ActionModel::NextLine]
    }
}

/// The events of a whole exchange: the tool emits `lines`, the resolver
/// succeeds on line `i` exactly when `ok[i]`, the output then ends and
/// the subprocess is reaped.
pub open spec fn script_events(lines: Seq<Seq<char>>, ok: Seq<bool>) -> Seq<EventModel>
    decreases lines.len(),
{
    if lines.len() == 0 {
        seq![EventModel::Eof, EventModel::Reaped]
    } else {
        line_events(lines[0], ok[0]) + script_events(lines.drop_first(), ok.drop_first())
    }
}

/// The actions of a whole exchange, matching [`script_events`].
pub open spec fn script_actions(cwd: Seq<char>, lines: Seq<Seq<char>>, ok: Seq<bool>) -> Seq<
    ActionModel,
>
    decreases lines.len(),
{
    if lines.len() == 0 {
        seq![ActionModel::Reap, ActionModel::Finish]
    } else {
        line_actions(cwd, lines[0], ok[0]) + script_actions(
            cwd,
            lines.drop_first(),
            ok.drop_first(),
        )
    }
}

/// One line's exchange, fed to the machine while it is reading, returns
/// it to reading and produces exactly that line's actions.
proof fn lemma_run_line(cwd: Seq<char>, l: Seq<char>, ok: bool)
    ensures
        run(cwd, Phase::Reading, line_events(l, ok)).0 == Phase::Reading,
        run(cwd, Phase::Reading, line_events(l, ok)).1 == line_actions(cwd, l, ok),
{
    reveal_with_fuel(run, 5);
    let evs = line_events(l, ok);
    if trimmed(l).len() == 0 {
        assert(evs.drop_first() =~= Seq::<EventModel>::empty());
        assert(run(cwd, Phase::Reading, evs).1 =~= line_actions(cwd, l, ok));
    } else if ok {
        assert(evs.drop_first() =~= seq![EventModel::ResolvedOk, EventModel::Forwarded]);
        assert(evs.drop_first().drop_first() =~= seq![EventModel::Forwarded]);
        assert(evs.drop_first().drop_first().drop_first() =~= Seq::<EventModel>::empty());
        assert(run(cwd, Phase::Reading, evs).1 =~= line_actions(cwd, l, ok));
    } else {
        assert(evs.drop_first() =~= seq![EventModel::ResolvedErr]);
        assert(evs.drop_first().drop_first() =~= Seq::<EventModel>::empty());
        assert(run(cwd, Phase::Reading, evs).1 =~= line_actions(cwd, l, ok));
    }
}

/// A whole exchange, fed to the machine from the start, finishes it and
/// produces exactly the exchange's action trace: the loop's behaviour is
/// a function of the lines and the resolver's verdicts alone.
pub proof fn lemma_run_script(cwd: Seq<char>, lines: Seq<Seq<char>>, ok: Seq<bool>)
    requires
        ok.len() == lines.len(),
    ensures
        run(cwd, Phase::Reading, script_events(lines, ok)).0 == Phase::Done,
        run(cwd, Phase::Reading, script_events(lines, ok)).1 == script_actions(cwd, lines, ok),
    decreases lines.len(),
{
    reveal_with_fuel(run, 4);
    if lines.len() == 0 {
        let evs = script_events(lines, ok);
        assert(evs.drop_first() =~= seq![EventModel::Reaped]);
        assert(evs.drop_first().drop_first() =~= Seq::<EventModel>::empty());
        assert(run(cwd, Phase::Reading, evs).1 =~= script_actions(cwd, lines, ok));
    } else {
        lemma_run_line(cwd, lines[0], ok[0]);
        lemma_run_concat(
            cwd,
            Phase::Reading,
            line_events(lines[0], ok[0]),
            script_events(lines.drop_first(), ok.drop_first()),
        );
        lemma_run_script(cwd, lines.drop_first(), ok.drop_first());
    }
}

/// The result paths whose descriptors reach the consumer in a whole
/// exchange, in order: the lines that survive trimming non-empty and
/// that the resolver succeeds on, each joined under the working
/// directory.
pub open spec fn delivered_paths(cwd: Seq<char>, lines: Seq<Seq<char>>, ok: Seq<bool>) -> Seq<
    Seq<char>,
>
    decreases lines.len(),
{
    if lines.len() == 0 {
        Seq::empty()
    } else {
        let rest = delivered_paths(cwd, lines.drop_first(), ok.drop_first());
        if trimmed(lines[0]).len() > 0 && ok[0] {
            seq![joined(cwd, trimmed(lines[0]))] + rest
        } else {
            rest
        }
    }
}

/// The absolute path of each emitted line, in emission order.
pub open spec fn all_paths(cwd: Seq<char>, lines: Seq<Seq<char>>) -> Seq<Seq<char>> {
    Seq::new(lines.len(), |i: int| joined(cwd, trimmed(lines[i])))
}

/// If every emitted line is non-empty and every one of them resolves,
/// the consumer receives exactly one descriptor per line, in the order
/// the lines were emitted.
pub proof fn lemma_all_resolved(cwd: Seq<char>, lines: Seq<Seq<char>>, ok: Seq<bool>)
    requires
        ok.len() == lines.len(),
        forall|i: int| 0 <= i < lines.len() ==> trimmed(#[trigger] lines[i]).len() > 0,
        forall|i: int| 0 <= i < lines.len() ==> #[trigger] ok[i],
    ensures
        delivered_paths(cwd, lines, ok) == all_paths(cwd, lines),
        delivered_paths(cwd, lines, ok).len() == lines.len(),
    decreases lines.len(),
{
    if lines.len() == 0 {
        assert(delivered_paths(cwd, lines, ok) =~= all_paths(cwd, lines));
    } else {
        lemma_all_resolved(cwd, lines.drop_first(), ok.drop_first());
        assert(delivered_paths(cwd, lines, ok) =~= all_paths(cwd, lines));
    }
}

/// If exactly the resolution of line `i` fails, the consumer receives
/// one descriptor fewer, and the rest keep their relative order: the
/// delivered paths are all the lines' paths with the failed one removed.
pub proof fn lemma_one_failure(cwd: Seq<char>, lines: Seq<Seq<char>>, ok: Seq<bool>, i: int)
    requires
        ok.len() == lines.len(),
        0 <= i < lines.len(),
        forall|j: int| 0 <= j < lines.len() ==> trimmed(#[trigger] lines[j]).len() > 0,
        forall|j: int| 0 <= j < lines.len() ==> (#[trigger] ok[j] <==> j != i),
    ensures
        delivered_paths(cwd, lines, ok) == all_paths(cwd, lines).remove(i),
        delivered_paths(cwd, lines, ok).len() == lines.len() - 1,
    decreases lines.len(),
{
    if i == 0 {
        lemma_all_resolved(cwd, lines.drop_first(), ok.drop_first());
        assert(delivered_paths(cwd, lines, ok) =~= all_paths(cwd, lines).remove(0));
    } else {
        lemma_one_failure(cwd, lines.drop_first(), ok.drop_first(), i - 1);
        assert(delivered_paths(cwd, lines, ok) =~= all_paths(cwd, lines).remove(i));
    }
}

/// The resolve-requests of an action trace that are answered with an
/// immediate forward — the descriptor forwarded right after
/// `Resolve(p)` is the one the resolver produced for `p`.
pub open spec fn forwarded_resolves(acts: Seq<ActionModel>) -> Seq<Seq<char>>
    decreases acts.len(),
{
    if acts.len() == 0 {
        Seq::empty()
    } else if acts.len() >= 2 && acts[0] is Resolve && acts[1] is Forward {
        seq![acts[0]->Resolve_0] + forwarded_resolves(acts.skip(2))
    } else {
        forwarded_resolves(acts.drop_first())
    }
}

/// In a whole exchange's action trace, the paths whose resolution is
/// answered with a forward are exactly the delivered paths, in order.
pub proof fn lemma_script_delivers(cwd: Seq<char>, lines: Seq<Seq<char>>, ok: Seq<bool>)
    requires
        ok.len() == lines.len(),
    ensures
        forwarded_resolves(script_actions(cwd, lines, ok)) == delivered_paths(cwd, lines, ok),
    decreases lines.len(),
{
    reveal_with_fuel(forwarded_resolves, 4);
    let acts = script_actions(cwd, lines, ok);
    if lines.len() == 0 {
        assert(acts.drop_first() =~= seq![ActionModel::Finish]);
        assert(acts.drop_first().drop_first() =~= Seq::<ActionModel>::empty());
        assert(forwarded_resolves(acts) =~= delivered_paths(cwd, lines, ok));
    } else {
        lemma_script_delivers(cwd, lines.drop_first(), ok.drop_first());
        let rest = script_actions(cwd, lines.drop_first(), ok.drop_first());
        if trimmed(lines[0]).len() == 0 {
            assert(acts.drop_first() =~= rest);
            assert(forwarded_resolves(acts) =~= delivered_paths(cwd, lines, ok));
        } else if ok[0] {
            assert(acts[0] is Resolve && acts[1] is Forward);
            assert(acts.skip(2) =~= seq![ActionModel::NextLine] + rest);
            assert((seq![ActionModel::NextLine] + rest).drop_first() =~= rest);
            assert(forwarded_resolves(acts) =~= delivered_paths(cwd, lines, ok));
        } else {
            assert(acts[0] is Resolve && acts[1] is NextLine);
            assert(acts.drop_first() =~= seq![ActionModel::NextLine] + rest);
            assert((seq![ActionModel::NextLine] + rest).drop_first() =~= rest);
            assert(forwarded_resolves(acts) =~= delivered_paths(cwd, lines, ok));
        }
    }
}

/// End to end: over a whole exchange, the machine's own action trace
/// forwards exactly one descriptor per line the resolver succeeds on,
/// in the order the lines were emitted — the delivered paths.
pub proof fn lemma_machine_delivers(cwd: Seq<char>, lines: Seq<Seq<char>>, ok: Seq<bool>)
    requires
        ok.len() == lines.len(),
    ensures
        run(cwd, Phase::Reading, script_events(lines, ok)).0 == Phase::Done,
        forwarded_resolves(run(cwd, Phase::Reading, script_events(lines, ok)).1)
            == delivered_paths(cwd, lines, ok),
{
    lemma_run_script(cwd, lines, ok);
    lemma_script_delivers(cwd, lines, ok);
}

} // verus!
