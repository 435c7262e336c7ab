use vstd::prelude::*;
use crate::action::{
    Action, KeyCode, KeyEvent, Outcome, Platform, Problem, KEY_GAP_MS, SETTLE_DELAY_MS,
};
use crate::session::{initial_stage, next_stage, stage_action, valid_target, target_id, Stage};

verus! {

/// The actions that a session in `stage` asks for, when the caller reports
/// the outcomes `outs` one after another: the current action, then one more
/// per reported outcome.
pub open spec fn run(platform: Platform, target: Option<u64>, stage: Stage, outs: Seq<Outcome>) -> Seq<Action>
    decreases outs.len(),
{
    if outs.len() == 0 {
        seq![stage_action(stage, target)]
    } else {
        seq![stage_action(stage, target)] + run(
            platform,
            target,
            next_stage(platform, target, stage, outs[0]),
            outs.drop_first(),
        )
    }
}

/// The actions of a whole paste, from a fresh session.
pub open spec fn paste_actions(platform: Platform, target: Option<u64>, outs: Seq<Outcome>) -> Seq<Action> {
    run(platform, target, initial_stage(platform, target), outs)
}

/// The milliseconds that an action sleeps.
pub open spec fn wait_of(a: Action) -> nat {
    match a {
        Action::Wait { millis } => millis as nat,
        _ => 0,
    }
}

/// The milliseconds that a sequence of actions sleeps in all.
pub open spec fn waited(acts: Seq<Action>) -> nat
    decreases acts.len(),
{
    if acts.len() == 0 {
        0
    } else {
        wait_of(acts[0]) + waited(acts.drop_first())
    }
}

/// An action that injects input.
pub open spec fn is_injection(a: Action) -> bool {
    a is Key || a is TypePasteShortcut
}

proof fn lemma_run_shape(platform: Platform, target: Option<u64>, stage: Stage, outs: Seq<Outcome>)
    ensures
        run(platform, target, stage, outs).len() == outs.len() + 1,
        run(platform, target, stage, outs)[0] == stage_action(stage, target),
        outs.len() > 0 ==> forall|k: int|
            0 < k <= outs.len() ==> #[trigger] run(platform, target, stage, outs)[k] == run(
                platform,
                target,
                next_stage(platform, target, stage, outs[0]),
                outs.drop_first(),
            )[k - 1],
    decreases outs.len(),
{
    if outs.len() > 0 {
        lemma_run_shape(platform, target, next_stage(platform, target, stage, outs[0]), outs.drop_first());
    }
}

proof fn lemma_no_focus(platform: Platform, target: Option<u64>, stage: Stage, outs: Seq<Outcome>)
    requires
        stage != Stage::Focus,
        stage == Stage::OpenDisplay ==> !valid_target(target),
    ensures
        forall|k: int| 0 <= k < outs.len() + 1 ==> !(#[trigger] run(platform, target, stage, outs)[k] is Focus),
    decreases outs.len(),
{
    lemma_run_shape(platform, target, stage, outs);
    if outs.len() > 0 {
        lemma_no_focus(platform, target, next_stage(platform, target, stage, outs[0]), outs.drop_first());
    }
}

/// When no usable foreground application is known, the session never asks
/// to focus anything: the first step after the display connection (where the
/// platform has one) reports the missing target, and the paste goes on.
pub proof fn unknown_target_is_reported(platform: Platform, target: Option<u64>, outs: Seq<Outcome>)
    requires
        !valid_target(target),
    ensures
        forall|k: int| 0 <= k < outs.len() + 1 ==> !(#[trigger] paste_actions(platform, target, outs)[k] is Focus),
        platform != Platform::Linux ==> paste_actions(platform, target, outs)[0]
            == (Action::Report { problem: Problem::NoForegroundApp }),
        platform == Platform::Linux && outs.len() > 0 && outs[0] == Outcome::Succeeded
            ==> paste_actions(platform, target, outs)[1]
            == (Action::Report { problem: Problem::NoForegroundApp }),
{
    let s = initial_stage(platform, target);
    lemma_run_shape(platform, target, s, outs);
    lemma_no_focus(platform, target, s, outs);
    if outs.len() > 0 {
        lemma_run_shape(platform, target, next_stage(platform, target, s, outs[0]), outs.drop_first());
    }
}

/// With a usable target, exactly one focus request is made, naming that
/// target, and it comes before every injected input. On the display-server
/// platform this holds once the display connection has opened; where it does
/// not open, no focus request is made at all.
pub proof fn single_focus_before_input(platform: Platform, target: Option<u64>, outs: Seq<Outcome>)
    requires
        valid_target(target),
    ensures
        platform != Platform::Linux ==> {
            &&& paste_actions(platform, target, outs)[0] == (Action::Focus { id: target->0 })
            &&& forall|k: int|
                0 < k < outs.len() + 1 ==> !(#[trigger] paste_actions(platform, target, outs)[k] is Focus)
        },
        platform == Platform::Linux && outs.len() > 0 && outs[0] == Outcome::Succeeded ==> {
            &&& paste_actions(platform, target, outs)[0] == Action::OpenDisplay
            &&& paste_actions(platform, target, outs)[1] == (Action::Focus { id: target->0 })
            &&& forall|k: int|
                0 <= k < outs.len() + 1 && k != 1 ==> !(#[trigger] paste_actions(platform, target, outs)[k] is Focus)
        },
        platform == Platform::Linux && outs.len() > 0 && outs[0] == Outcome::Failed ==> forall|k: int|
            0 <= k < outs.len() + 1 ==> !(#[trigger] paste_actions(platform, target, outs)[k] is Focus),
        forall|k: int|
            0 <= k < outs.len() + 1 && is_injection(#[trigger] paste_actions(platform, target, outs)[k]) ==> {
                ||| platform != Platform::Linux && k > 0
                ||| platform == Platform::Linux && k > 1
            },
{
    let s = initial_stage(platform, target);
    lemma_run_shape(platform, target, s, outs);
    if outs.len() > 0 {
        let s1 = next_stage(platform, target, s, outs[0]);
        lemma_run_shape(platform, target, s1, outs.drop_first());
        if platform == Platform::Linux {
            if outs[0] == Outcome::Succeeded {
                if outs.len() > 1 {
                    let s2 = next_stage(platform, target, s1, outs.drop_first()[0]);
                    lemma_no_focus(platform, target, s2, outs.drop_first().drop_first());
                    lemma_run_shape(platform, target, s2, outs.drop_first().drop_first());
                }
            } else {
                lemma_no_focus(platform, target, s1, outs.drop_first());
            }
        } else {
            lemma_no_focus(platform, target, s1, outs.drop_first());
        }
    }
}

/// The sleep still owed before the next key event of a session in `stage`.
pub open spec fn owed_wait(platform: Platform, stage: Stage) -> nat {
    if platform == Platform::MacOs {
        0
    } else {
        match stage {
            Stage::Pause(_) => KEY_GAP_MS as nat,
            Stage::Press(_) | Stage::Script | Stage::Faulted | Stage::Done => 0,
            _ => (SETTLE_DELAY_MS + KEY_GAP_MS) as nat,
        }
    }
}

proof fn lemma_waited_prepend(a: Action, rest: Seq<Action>)
    ensures
        waited(seq![a] + rest) == wait_of(a) + waited(rest),
{
    assert((seq![a] + rest).drop_first() =~= rest);
}

proof fn lemma_waits_before_keys(platform: Platform, target: Option<u64>, stage: Stage, outs: Seq<Outcome>)
    ensures
        forall|k: int|
            0 <= k < outs.len() + 1 && #[trigger] run(platform, target, stage, outs)[k] is Key ==> waited(
                run(platform, target, stage, outs).take(k),
            ) >= owed_wait(platform, stage),
    decreases outs.len(),
{
    lemma_run_shape(platform, target, stage, outs);
    let r = run(platform, target, stage, outs);
    if outs.len() > 0 {
        let s1 = next_stage(platform, target, stage, outs[0]);
        let r1 = run(platform, target, s1, outs.drop_first());
        lemma_waits_before_keys(platform, target, s1, outs.drop_first());
        assert(r =~= seq![r[0]] + r1);
        assert forall|k: int| 0 <= k < outs.len() + 1 && #[trigger] r[k] is Key implies waited(r.take(k))
            >= owed_wait(platform, stage) by {
            if k > 0 {
                assert(r.take(k) =~= seq![r[0]] + r1.take(k - 1));
                lemma_waited_prepend(r[0], r1.take(k - 1));
                assert(r1[k - 1] is Key);
            }
        }
    }
}

/// On the platforms that inject discrete key events, every key event comes
/// after at least the settle delay, and the inter-event gap, of sleep since
/// the session began. Nothing before the focus request sleeps, so all of it
/// lies between the focus attempt and the key event.
pub proof fn settle_delay_before_keys(platform: Platform, target: Option<u64>, outs: Seq<Outcome>)
    requires
        platform != Platform::MacOs,
    ensures
        forall|k: int|
            0 <= k < outs.len() + 1 && #[trigger] paste_actions(platform, target, outs)[k] is Key ==> waited(
                paste_actions(platform, target, outs).take(k),
            ) >= SETTLE_DELAY_MS + KEY_GAP_MS,
        !(paste_actions(platform, target, outs)[0] is Wait),
        outs.len() > 0 && platform == Platform::Linux ==> !(paste_actions(platform, target, outs)[1] is Wait),
{
    let s = initial_stage(platform, target);
    lemma_waits_before_keys(platform, target, s, outs);
    lemma_run_shape(platform, target, s, outs);
    if outs.len() > 0 {
        lemma_run_shape(platform, target, next_stage(platform, target, s, outs[0]), outs.drop_first());
    }
}

proof fn lemma_gap_before_key(platform: Platform, target: Option<u64>, stage: Stage, outs: Seq<Outcome>)
    ensures
        forall|k: int|
            0 < k < outs.len() + 1 && #[trigger] run(platform, target, stage, outs)[k] is Key ==> run(
                platform,
                target,
                stage,
                outs,
            )[k - 1] == (Action::Wait { millis: KEY_GAP_MS }),
    decreases outs.len(),
{
    lemma_run_shape(platform, target, stage, outs);
    if outs.len() > 0 {
        let s1 = next_stage(platform, target, stage, outs[0]);
        lemma_gap_before_key(platform, target, s1, outs.drop_first());
        lemma_run_shape(platform, target, s1, outs.drop_first());
    }
}

/// Every key event is issued right after a sleep of the inter-event gap, and
/// a fresh session never starts with one.
pub proof fn gap_before_every_key(platform: Platform, target: Option<u64>, outs: Seq<Outcome>)
    ensures
        !(paste_actions(platform, target, outs)[0] is Key),
        forall|k: int|
            0 < k < outs.len() + 1 && #[trigger] paste_actions(platform, target, outs)[k] is Key
                ==> paste_actions(platform, target, outs)[k - 1] == (Action::Wait { millis: KEY_GAP_MS }),
{
    lemma_run_shape(platform, target, initial_stage(platform, target), outs);
    lemma_gap_before_key(platform, target, initial_stage(platform, target), outs);
}

proof fn lemma_faulted_stays(platform: Platform, target: Option<u64>, outs: Seq<Outcome>)
    ensures
        forall|k: int|
            0 <= k < outs.len() + 1 ==> #[trigger] run(platform, target, Stage::Faulted, outs)[k]
                == (Action::Abort { problem: Problem::InjectionFailed }),
    decreases outs.len(),
{
    lemma_run_shape(platform, target, Stage::Faulted, outs);
    if outs.len() > 0 {
        lemma_faulted_stays(platform, target, outs.drop_first());
    }
}

proof fn lemma_failed_injection_stops(platform: Platform, target: Option<u64>, stage: Stage, outs: Seq<Outcome>)
    ensures
        forall|k: int, j: int|
            0 <= k < j < outs.len() + 1 && is_injection(#[trigger] run(platform, target, stage, outs)[k])
                && outs[k] == Outcome::Failed ==> #[trigger] run(platform, target, stage, outs)[j]
                == (Action::Abort { problem: Problem::InjectionFailed }),
    decreases outs.len(),
{
    lemma_run_shape(platform, target, stage, outs);
    if outs.len() > 0 {
        let s1 = next_stage(platform, target, stage, outs[0]);
        lemma_failed_injection_stops(platform, target, s1, outs.drop_first());
        if is_injection(stage_action(stage, target)) && outs[0] == Outcome::Failed {
            lemma_faulted_stays(platform, target, outs.drop_first());
        }
        assert forall|k: int, j: int|
            0 <= k < j < outs.len() + 1 && is_injection(#[trigger] run(platform, target, stage, outs)[k])
                && outs[k] == Outcome::Failed implies #[trigger] run(platform, target, stage, outs)[j]
                == (Action::Abort { problem: Problem::InjectionFailed }) by {
            if k > 0 {
                assert(outs[k] == outs.drop_first()[k - 1]);
                assert(run(platform, target, s1, outs.drop_first())[k - 1] == run(platform, target, stage, outs)[k]);
                assert(run(platform, target, s1, outs.drop_first())[j - 1] == run(platform, target, stage, outs)[j]);
            } else {
                assert(run(platform, target, s1, outs.drop_first())[j - 1] == run(platform, target, stage, outs)[j]);
            }
        }
    }
}

/// Once an injected input is reported as failed, the session faults: every
/// later action is the unrecoverable abort, so no further input is issued.
pub proof fn failed_injection_aborts(platform: Platform, target: Option<u64>, outs: Seq<Outcome>)
    ensures
        forall|k: int, j: int|
            0 <= k < j < outs.len() + 1 && is_injection(#[trigger] paste_actions(platform, target, outs)[k])
                && outs[k] == Outcome::Failed ==> #[trigger] paste_actions(platform, target, outs)[j]
                == (Action::Abort { problem: Problem::InjectionFailed }),
{
    lemma_failed_injection_stops(platform, target, initial_stage(platform, target), outs);
}

/// `n` outcomes, all successful.
pub open spec fn all_succeed(n: nat) -> Seq<Outcome> {
    Seq::new(n, |i: int| Outcome::Succeeded)
}

/// The settle delay, then Shift+Insert as four discrete events with the
/// inter-event gap before each, then the end of the paste.
pub open spec fn chord_actions() -> Seq<Action> {
    seq![
        Action::Wait { millis: SETTLE_DELAY_MS },
        Action::Wait { millis: KEY_GAP_MS },
        Action::Key { event: KeyEvent::Press(KeyCode::Shift) },
        Action::Wait { millis: KEY_GAP_MS },
        Action::Key { event: KeyEvent::Press(KeyCode::Insert) },
        Action::Wait { millis: KEY_GAP_MS },
        Action::Key { event: KeyEvent::Release(KeyCode::Insert) },
        Action::Wait { millis: KEY_GAP_MS },
        Action::Key { event: KeyEvent::Release(KeyCode::Shift) },
        Action::Finish,
    ]
}

proof fn lemma_success_step(platform: Platform, target: Option<u64>, stage: Stage, n: nat)
    ensures
        run(platform, target, stage, all_succeed(n + 1)) == seq![stage_action(stage, target)] + run(
            platform,
            target,
            next_stage(platform, target, stage, Outcome::Succeeded),
            all_succeed(n),
        ),
{
    assert(all_succeed(n + 1).drop_first() =~= all_succeed(n));
}

proof fn lemma_chord_success(platform: Platform, target: Option<u64>)
    requires
        platform != Platform::MacOs,
    ensures
        run(platform, target, Stage::Settle, all_succeed(9)) == chord_actions(),
{
    lemma_success_step(platform, target, Stage::Settle, 8);
    let s1 = next_stage(platform, target, Stage::Settle, Outcome::Succeeded);
    lemma_success_step(platform, target, s1, 7);
    let s2 = next_stage(platform, target, s1, Outcome::Succeeded);
    lemma_success_step(platform, target, s2, 6);
    let s3 = next_stage(platform, target, s2, Outcome::Succeeded);
    lemma_success_step(platform, target, s3, 5);
    let s4 = next_stage(platform, target, s3, Outcome::Succeeded);
    lemma_success_step(platform, target, s4, 4);
    let s5 = next_stage(platform, target, s4, Outcome::Succeeded);
    lemma_success_step(platform, target, s5, 3);
    let s6 = next_stage(platform, target, s5, Outcome::Succeeded);
    lemma_success_step(platform, target, s6, 2);
    let s7 = next_stage(platform, target, s6, Outcome::Succeeded);
    lemma_success_step(platform, target, s7, 1);
    let s8 = next_stage(platform, target, s7, Outcome::Succeeded);
    lemma_success_step(platform, target, s8, 0);
    let s9 = next_stage(platform, target, s8, Outcome::Succeeded);
    assert(s9 == Stage::Done);
    assert(run(platform, target, s9, all_succeed(0)) == seq![Action::Finish]);
    assert(run(platform, target, Stage::Settle, all_succeed(9)) =~= chord_actions());
}

/// When every step succeeds, a paste for a usable target issues exactly this
/// sequence: one focus request, then on the key-chord platforms the settle
/// delay and the events press(Shift), press(Insert), release(Insert),
/// release(Shift), each after the inter-event gap; the display-server
/// platform opens its connection first and closes it before the settle
/// delay; the script platform runs its keystroke script right away.
pub proof fn success_sequence(target: Option<u64>)
    requires
        valid_target(target),
    ensures
        paste_actions(Platform::Windows, target, all_succeed(10)) == seq![Action::Focus { id: target->0 }]
            + chord_actions(),
        paste_actions(Platform::Linux, target, all_succeed(12)) == seq![
            Action::OpenDisplay,
            Action::Focus { id: target->0 },
            Action::CloseDisplay,
        ] + chord_actions(),
        paste_actions(Platform::MacOs, target, all_succeed(2)) == seq![
            Action::Focus { id: target->0 },
            Action::TypePasteShortcut,
            Action::Finish,
        ],
{
    let w = Platform::Windows;
    lemma_success_step(w, target, Stage::Focus, 9);
    lemma_chord_success(w, target);
    assert(paste_actions(w, target, all_succeed(10)) =~= seq![Action::Focus { id: target->0 }]
        + chord_actions());

    let l = Platform::Linux;
    lemma_success_step(l, target, Stage::OpenDisplay, 11);
    lemma_success_step(l, target, Stage::Focus, 10);
    lemma_success_step(l, target, Stage::CloseDisplay, 9);
    lemma_chord_success(l, target);
    assert(paste_actions(l, target, all_succeed(12)) =~= seq![
        Action::OpenDisplay,
        Action::Focus { id: target->0 },
        Action::CloseDisplay,
    ] + chord_actions());

    let m = Platform::MacOs;
    lemma_success_step(m, target, Stage::Focus, 1);
    lemma_success_step(m, target, Stage::Script, 0);
    assert(paste_actions(m, target, all_succeed(2)) =~= seq![
        Action::Focus { id: target->0 },
        Action::TypePasteShortcut,
        Action::Finish,
    ]);
}

/// A stage that comes after the display connection has been closed, or in
/// place of opening it.
pub open spec fn past_display(stage: Stage) -> bool {
    match stage {
        Stage::ReportNoDisplay | Stage::Settle | Stage::Pause(_) | Stage::Press(_) | Stage::Script
        | Stage::Faulted | Stage::Done => true,
        _ => false,
    }
}

proof fn lemma_no_close(platform: Platform, target: Option<u64>, stage: Stage, outs: Seq<Outcome>)
    requires
        past_display(stage),
    ensures
        forall|k: int|
            0 <= k < outs.len() + 1 ==> #[trigger] run(platform, target, stage, outs)[k] != Action::CloseDisplay,
    decreases outs.len(),
{
    lemma_run_shape(platform, target, stage, outs);
    if outs.len() > 0 {
        lemma_no_close(platform, target, next_stage(platform, target, stage, outs[0]), outs.drop_first());
    }
}

/// Where the display-server connection is closed: right after the focus
/// request or the missing-target report, or after the report that focusing
/// was refused.
pub open spec fn close_at(target: Option<u64>, outs: Seq<Outcome>) -> int {
    if valid_target(target) && outs[1] == Outcome::Failed {
        3
    } else {
        2
    }
}

/// On the display-server platform, a connection that was opened is closed
/// exactly once, whether focusing succeeded, was refused, or had no target;
/// a connection that failed to open is never closed.
pub proof fn display_closed_on_every_path(target: Option<u64>, outs: Seq<Outcome>)
    requires
        outs.len() >= 3,
    ensures
        outs[0] == Outcome::Succeeded ==> {
            &&& paste_actions(Platform::Linux, target, outs)[close_at(target, outs)] == Action::CloseDisplay
            &&& forall|k: int|
                0 <= k < outs.len() + 1 && k != close_at(target, outs)
                    ==> #[trigger] paste_actions(Platform::Linux, target, outs)[k] != Action::CloseDisplay
        },
        outs[0] == Outcome::Failed ==> forall|k: int|
            0 <= k < outs.len() + 1 ==> #[trigger] paste_actions(Platform::Linux, target, outs)[k]
                != Action::CloseDisplay,
{
    let p = Platform::Linux;
    let s0 = Stage::OpenDisplay;
    let s1 = next_stage(p, target, s0, outs[0]);
    let o1 = outs.drop_first();
    let s2 = next_stage(p, target, s1, o1[0]);
    let o2 = o1.drop_first();
    let s3 = next_stage(p, target, s2, o2[0]);
    let o3 = o2.drop_first();
    lemma_run_shape(p, target, s0, outs);
    lemma_run_shape(p, target, s1, o1);
    lemma_run_shape(p, target, s2, o2);
    lemma_run_shape(p, target, s3, o3);
    assert(o1[0] == outs[1]);
    if outs[0] == Outcome::Failed {
        lemma_no_close(p, target, s1, o1);
    } else if s2 == Stage::CloseDisplay {
        lemma_no_close(p, target, s3, o3);
    } else {
        assert(s3 == Stage::CloseDisplay);
        if o3.len() > 0 {
            let s4 = next_stage(p, target, s3, o3[0]);
            lemma_no_close(p, target, s4, o3.drop_first());
        }
    }
}

} // verus!
