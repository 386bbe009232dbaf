//! Laws of the orchestration machine: what a whole run does, stated over
//! the trace of actions it hands out, and proved from the transition
//! function alone.

use vstd::prelude::*;

use crate::config::{lower_of, ConfigV};
use crate::decode::decoded_body;
use crate::pipeline::{publish_act, step_spec, AbortReason, ActV, EvV, StageV, WaitOutcome};
use crate::report::{
    fetch_failure_message, header_line, join_lines, report_lines, row_line, separator_line,
    table_report, timeout_message, ScenarioOutcomeV,
};
use crate::text::dec_str;
use crate::trigger::TriggerV;

verus! {

/// The actions a run hands out: starting at `st`, fed the events `evs`
/// in order.
pub open spec fn acts_of(cfg: ConfigV, st: StageV, evs: Seq<EvV>) -> Seq<ActV>
    decreases evs.len(),
{
    if evs.len() == 0 {
        Seq::<ActV>::empty()
    } else {
        let r = step_spec(cfg, st, evs[0]);
        seq![r.1] + acts_of(cfg, r.0, evs.drop_first())
    }
}

/// Every action in the trace is `Halt`: the run does nothing outside.
pub open spec fn all_halt(acts: Seq<ActV>) -> bool {
    forall|i: int| 0 <= i < acts.len() ==> acts[i] is Halt
}

/// A trace has one action per event.
pub proof fn lemma_acts_len(cfg: ConfigV, st: StageV, evs: Seq<EvV>)
    ensures
        acts_of(cfg, st, evs).len() == evs.len(),
    decreases evs.len(),
{
    if evs.len() > 0 {
        let r = step_spec(cfg, st, evs[0]);
        lemma_acts_len(cfg, r.0, evs.drop_first());
    }
}

/// An aborted run never acts again, whatever events arrive.
pub proof fn lemma_aborted_inert(cfg: ConfigV, reason: AbortReason, evs: Seq<EvV>)
    ensures
        all_halt(acts_of(cfg, StageV::Aborted { reason }, evs)),
    decreases evs.len(),
{
    if evs.len() > 0 {
        let st = StageV::Aborted { reason };
        let r = step_spec(cfg, st, evs[0]);
        assert(r == (st, ActV::Halt));
        lemma_aborted_inert(cfg, reason, evs.drop_first());
        let acts = acts_of(cfg, st, evs);
        let rest = acts_of(cfg, st, evs.drop_first());
        assert forall|i: int| 0 <= i < acts.len() implies acts[i] is Halt by {
            if i > 0 {
                assert(acts[i] == rest[i - 1]);
            }
        }
    }
}

/// A finished run never acts again, whatever events arrive.
pub proof fn lemma_done_inert(cfg: ConfigV, evs: Seq<EvV>)
    ensures
        all_halt(acts_of(cfg, StageV::Done, evs)),
    decreases evs.len(),
{
    if evs.len() > 0 {
        let r = step_spec(cfg, StageV::Done, evs[0]);
        assert(r == (StageV::Done, ActV::Halt));
        lemma_done_inert(cfg, evs.drop_first());
        let acts = acts_of(cfg, StageV::Done, evs);
        let rest = acts_of(cfg, StageV::Done, evs.drop_first());
        assert forall|i: int| 0 <= i < acts.len() implies acts[i] is Halt by {
            if i > 0 {
                assert(acts[i] == rest[i - 1]);
            }
        }
    }
}

/// A run whose first step aborts it never acts at all.
proof fn lemma_first_step_aborts(cfg: ConfigV, st: StageV, reason: AbortReason, evs: Seq<EvV>)
    requires
        evs.len() > 0,
        step_spec(cfg, st, evs[0]) == (StageV::Aborted { reason }, ActV::Halt),
    ensures
        all_halt(acts_of(cfg, st, evs)),
{
    lemma_aborted_inert(cfg, reason, evs.drop_first());
    let acts = acts_of(cfg, st, evs);
    let rest = acts_of(cfg, StageV::Aborted { reason }, evs.drop_first());
    assert forall|i: int| 0 <= i < acts.len() implies acts[i] is Halt by {
        if i > 0 {
            assert(acts[i] == rest[i - 1]);
        }
    }
}

/// After the report is out, a run only finishes: every later action is
/// `Halt`.
pub proof fn lemma_reported_inert(cfg: ConfigV, t: TriggerV, report: Seq<char>, evs: Seq<EvV>)
    ensures
        all_halt(acts_of(cfg, StageV::Reported { trigger: t, report }, evs)),
    decreases evs.len(),
{
    if evs.len() > 0 {
        let st = StageV::Reported { trigger: t, report };
        let r = step_spec(cfg, st, evs[0]);
        assert(r.1 == ActV::Halt);
        assert(r.0 == StageV::Done || r.0 == (StageV::Aborted {
            reason: AbortReason::ProtocolMismatch,
        }));
        if r.0 == StageV::Done {
            lemma_done_inert(cfg, evs.drop_first());
        } else {
            lemma_aborted_inert(cfg, AbortReason::ProtocolMismatch, evs.drop_first());
        }
        let acts = acts_of(cfg, st, evs);
        let rest = acts_of(cfg, r.0, evs.drop_first());
        assert forall|i: int| 0 <= i < acts.len() implies acts[i] is Halt by {
            if i > 0 {
                assert(acts[i] == rest[i - 1]);
            }
        }
    }
}

/// A request body that does not decode to structured data produces a run
/// with no outbound call and no published comment: every action is
/// `Halt`.
pub proof fn lemma_undecodable_body_inert(cfg: ConfigV, b: Seq<u8>, evs: Seq<EvV>)
    requires
        evs.len() > 0,
        evs[0] == EvV::Body(b),
        decoded_body(b) is None,
    ensures
        all_halt(acts_of(cfg, StageV::Received, evs)),
{
    assert(step_spec(cfg, StageV::Received, evs[0]) == (
        StageV::Aborted { reason: AbortReason::MalformedEvent },
        ActV::Halt,
    ));
    lemma_first_step_aborts(cfg, StageV::Received, AbortReason::MalformedEvent, evs);
}

/// A trigger whose command is not the trigger keyword leads to no build,
/// no upload and no published comment: from its extraction on, every
/// action is `Halt`.
pub proof fn lemma_wrong_command_inert(cfg: ConfigV, t: TriggerV, evs: Seq<EvV>)
    requires
        t.command_text != "profile"@,
    ensures
        all_halt(acts_of(cfg, StageV::Extracted { trigger: t }, evs)),
{
    if evs.len() > 0 {
        let r = step_spec(cfg, StageV::Extracted { trigger: t }, evs[0]);
        assert(r.1 == ActV::Halt);
        assert(r.0 is Aborted);
        lemma_first_step_aborts(cfg, StageV::Extracted { trigger: t }, r.0->Aborted_reason, evs);
    }
}

/// A trigger whose commenter, lower-cased, is not on the allow-list
/// leads to no build, no upload and no published comment, even when the
/// command matches: from its extraction on, every action is `Halt`.
pub proof fn lemma_unlisted_commenter_inert(cfg: ConfigV, t: TriggerV, evs: Seq<EvV>)
    requires
        !cfg.allowed_commenters.contains(lower_of(t.commenter_id)),
    ensures
        all_halt(acts_of(cfg, StageV::Extracted { trigger: t }, evs)),
{
    if evs.len() > 0 {
        let r = step_spec(cfg, StageV::Extracted { trigger: t }, evs[0]);
        assert(r.1 == ActV::Halt);
        assert(r.0 is Aborted);
        lemma_first_step_aborts(cfg, StageV::Extracted { trigger: t }, r.0->Aborted_reason, evs);
    }
}

/// When the upload has succeeded and the wait times out, the one action
/// the run still takes is to publish exactly the timeout message; the
/// results are never fetched.
pub proof fn lemma_timeout_short_circuits(
    cfg: ConfigV,
    t: TriggerV,
    job: Seq<char>,
    evs: Seq<EvV>,
)
    requires
        evs.len() > 0,
        evs[0] == EvV::Waited(WaitOutcome::TimedOut),
    ensures
        acts_of(cfg, StageV::Uploaded { trigger: t, job }, evs)[0] == publish_act(
            cfg,
            t,
            timeout_message(),
        ),
        forall|i: int|
            0 <= i < evs.len() ==> !(acts_of(cfg, StageV::Uploaded { trigger: t, job }, evs)[i]
                is FetchResult),
        forall|i: int|
            1 <= i < evs.len() ==> acts_of(cfg, StageV::Uploaded { trigger: t, job }, evs)[i]
                is Halt,
{
    let st = StageV::Uploaded { trigger: t, job };
    let r = step_spec(cfg, st, evs[0]);
    assert(r.0 == StageV::Reported { trigger: t, report: timeout_message() });
    assert(r.1 == publish_act(cfg, t, timeout_message()));
    lemma_reported_inert(cfg, t, timeout_message(), evs.drop_first());
    lemma_acts_len(cfg, r.0, evs.drop_first());
    let acts = acts_of(cfg, st, evs);
    let rest = acts_of(cfg, r.0, evs.drop_first());
    assert forall|i: int| 1 <= i < evs.len() implies acts[i] is Halt by {
        assert(acts[i] == rest[i - 1]);
    }
}

/// When the wait has completed and the fetch fails, the one action the
/// run still takes is to publish exactly the fetch-failure message.
pub proof fn lemma_fetch_failure_report(cfg: ConfigV, t: TriggerV, job: Seq<char>, evs: Seq<EvV>)
    requires
        evs.len() > 0,
        evs[0] == EvV::Fetched(None),
    ensures
        acts_of(cfg, StageV::Polled { trigger: t, job }, evs)[0] == publish_act(
            cfg,
            t,
            fetch_failure_message(),
        ),
        forall|i: int|
            1 <= i < evs.len() ==> acts_of(cfg, StageV::Polled { trigger: t, job }, evs)[i]
                is Halt,
{
    let st = StageV::Polled { trigger: t, job };
    let r = step_spec(cfg, st, evs[0]);
    assert(r.1 == publish_act(cfg, t, fetch_failure_message()));
    lemma_reported_inert(cfg, t, fetch_failure_message(), evs.drop_first());
    lemma_acts_len(cfg, r.0, evs.drop_first());
    let acts = acts_of(cfg, st, evs);
    let rest = acts_of(cfg, r.0, evs.drop_first());
    assert forall|i: int| 1 <= i < evs.len() implies acts[i] is Halt by {
        assert(acts[i] == rest[i - 1]);
    }
}

/// When all three profiling steps succeed, the one action the run still
/// takes is to publish exactly the rendered table of the outcomes.
pub proof fn lemma_success_report(
    cfg: ConfigV,
    t: TriggerV,
    job: Seq<char>,
    outs: Seq<ScenarioOutcomeV>,
    evs: Seq<EvV>,
)
    requires
        evs.len() > 0,
        evs[0] == EvV::Fetched(Some(outs)),
    ensures
        acts_of(cfg, StageV::Polled { trigger: t, job }, evs)[0] == publish_act(
            cfg,
            t,
            table_report(outs),
        ),
        forall|i: int|
            1 <= i < evs.len() ==> acts_of(cfg, StageV::Polled { trigger: t, job }, evs)[i]
                is Halt,
{
    let st = StageV::Polled { trigger: t, job };
    let r = step_spec(cfg, st, evs[0]);
    assert(r.1 == publish_act(cfg, t, table_report(outs)));
    lemma_reported_inert(cfg, t, table_report(outs), evs.drop_first());
    lemma_acts_len(cfg, r.0, evs.drop_first());
    let acts = acts_of(cfg, st, evs);
    let rest = acts_of(cfg, r.0, evs.drop_first());
    assert forall|i: int| 1 <= i < evs.len() implies acts[i] is Halt by {
        assert(acts[i] == rest[i - 1]);
    }
}

/// No newline occurs in `s`.
pub open spec fn newline_free(s: Seq<char>) -> bool {
    forall|i: int| 0 <= i < s.len() ==> s[i] != '\n'
}

/// The position of the first newline in `s`, or its length.
pub open spec fn line_break(s: Seq<char>) -> nat
    decreases s.len(),
{
    if s.len() == 0 {
        0
    } else if s[0] == '\n' {
        0
    } else {
        (1 + line_break(s.drop_first())) as nat
    }
}

/// The lines of `s`: what stands between the newlines.
pub open spec fn split_lines(s: Seq<char>) -> Seq<Seq<char>>
    decreases s.len(),
{
    if s.len() == 0 {
        Seq::<Seq<char>>::empty()
    } else {
        let k = line_break(s);
        if k >= s.len() {
            seq![s]
        } else {
            seq![s.subrange(0, k as int)] + split_lines(s.skip(k as int + 1))
        }
    }
}

proof fn lemma_line_break_concat(l: Seq<char>, r: Seq<char>)
    requires
        newline_free(l),
    ensures
        line_break(l + seq!['\n'] + r) == l.len(),
    decreases l.len(),
{
    let s = l + seq!['\n'] + r;
    if l.len() == 0 {
        assert(s[0] == '\n');
    } else {
        assert(s[0] == l[0]);
        lemma_line_break_concat(l.drop_first(), r);
        assert(s.drop_first() =~= l.drop_first() + seq!['\n'] + r);
    }
}

/// Splitting the joined lines gives the lines back, as long as none of
/// them holds a newline of its own.
pub proof fn lemma_split_join(ls: Seq<Seq<char>>)
    requires
        forall|i: int| 0 <= i < ls.len() ==> newline_free(#[trigger] ls[i]),
    ensures
        split_lines(join_lines(ls)) == ls,
    decreases ls.len(),
{
    if ls.len() > 0 {
        let l = ls[0];
        let rest = join_lines(ls.drop_first());
        let s = join_lines(ls);
        assert(s == l + seq!['\n'] + rest);
        lemma_line_break_concat(l, rest);
        assert(s.len() == l.len() + 1 + rest.len());
        let k = line_break(s);
        assert(k == l.len());
        assert(k < s.len());
        assert(s.subrange(0, k as int) =~= l);
        assert(s.skip(k as int + 1) =~= rest);
        assert forall|i: int| 0 <= i < ls.drop_first().len() implies newline_free(
            #[trigger] ls.drop_first()[i],
        ) by {
            assert(ls.drop_first()[i] == ls[i + 1]);
        }
        lemma_split_join(ls.drop_first());
        assert(split_lines(s) =~= seq![l] + ls.drop_first());
        assert(seq![l] + ls.drop_first() =~= ls);
    }
}

proof fn lemma_dec_str_newline_free(n: int)
    requires
        n >= 0,
    ensures
        newline_free(dec_str(n)),
    decreases n,
{
    if n >= 10 {
        lemma_dec_str_newline_free(n / 10);
        assert forall|i: int| 0 <= i < dec_str(n).len() implies dec_str(n)[i] != '\n' by {
            if i < dec_str(n / 10).len() {
                assert(dec_str(n)[i] == dec_str(n / 10)[i]);
            }
        }
    }
}

proof fn lemma_header_newline_free()
    ensures
        newline_free(header_line()),
        newline_free(separator_line()),
{
    reveal_strlit("Scenario | Status | Time (ms)");
    reveal_strlit("---------|--------|----------");
}

/// The shape of a successful report: splitting it at its newlines gives
/// the header, the separator, and then one row per scenario outcome, in
/// the order the profiling service returned them — as long as no cell
/// itself holds a newline.
pub proof fn lemma_report_shape(outs: Seq<ScenarioOutcomeV>)
    requires
        forall|i: int|
            0 <= i < outs.len() ==> newline_free(#[trigger] outs[i].name) && newline_free(
                outs[i].status,
            ),
    ensures
        split_lines(table_report(outs)) == report_lines(outs),
        report_lines(outs).len() == outs.len() + 2,
        report_lines(outs)[0] == header_line(),
        report_lines(outs)[1] == separator_line(),
        forall|i: int|
            0 <= i < outs.len() ==> report_lines(outs)[i + 2] == row_line(#[trigger] outs[i]),
{
    let ls = report_lines(outs);
    lemma_header_newline_free();
    assert forall|i: int| 0 <= i < ls.len() implies newline_free(#[trigger] ls[i]) by {
        if i >= 2 {
            let o = outs[i - 2];
            assert(ls[i] == row_line(o));
            lemma_dec_str_newline_free(o.time_ms as int);
            reveal_strlit(" | ");
            assert forall|k: int| 0 <= k < row_line(o).len() implies row_line(o)[k] != '\n' by {
                let row = o.name + " | "@ + o.status + " | "@ + dec_str(o.time_ms as int);
                assert(row_line(o) == row);
            }
        }
    }
    lemma_split_join(ls);
}

} // verus!
