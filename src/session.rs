use vstd::prelude::*;
use crate::action::{
    wait, Action, KeyCode, KeyEvent, Outcome, Platform, Problem, KEY_GAP_MS, SETTLE_DELAY_MS,
};

verus! {

/// A position in the chord Shift+Insert.
#[derive(Clone, Copy, Debug, PartialEq, Eq, Structural)]
pub enum ChordStep {
    ShiftDown,
    InsertDown,
    InsertUp,
    ShiftUp,
}

/// Where a paste session stands: each stage asks for exactly one action.
#[derive(Clone, Copy, Debug, PartialEq, Eq, Structural)]
pub enum Stage {
    OpenDisplay,
    Focus,
    ReportNoTarget,
    ReportNoDisplay,
    ReportFocusRefused,
    CloseDisplay,
    Settle,
    Pause(ChordStep),
    Press(ChordStep),
    Script,
    Faulted,
    Done,
}

/// The key event issued at a position of the chord.
pub open spec fn chord_event(c: ChordStep) -> KeyEvent {
    match c {
        ChordStep::ShiftDown => KeyEvent::Press(KeyCode::Shift),
        ChordStep::InsertDown => KeyEvent::Press(KeyCode::Insert),
        ChordStep::InsertUp => KeyEvent::Release(KeyCode::Insert),
        ChordStep::ShiftUp => KeyEvent::Release(KeyCode::Shift),
    }
}

/// An identifier that names something: the lookup found one and it is not null.
pub open spec fn valid_target(target: Option<u64>) -> bool {
    target matches Some(id) && id != 0
}

/// The identifier that a focus request names: zero where none is known.
pub open spec fn target_id(target: Option<u64>) -> u64 {
    match target {
        Some(id) => id,
        None => 0,
    }
}

/// The stage a session starts in.
pub open spec fn initial_stage(platform: Platform, target: Option<u64>) -> Stage {
    if platform == Platform::Linux {
        Stage::OpenDisplay
    } else if valid_target(target) {
        Stage::Focus
    } else {
        Stage::ReportNoTarget
    }
}

/// The stage that follows the attempt to restore focus, whatever its result.
pub open spec fn after_focus(platform: Platform) -> Stage {
    match platform {
        Platform::MacOs => Stage::Script,
        Platform::Windows => Stage::Settle,
        Platform::Linux => Stage::CloseDisplay,
    }
}

/// The stage that follows `stage` when its action had outcome `o`.
pub open spec fn next_stage(platform: Platform, target: Option<u64>, stage: Stage, o: Outcome) -> Stage {
    match stage {
        Stage::OpenDisplay => if o == Outcome::Failed {
            Stage::ReportNoDisplay
        } else if valid_target(target) {
            Stage::Focus
        } else {
            Stage::ReportNoTarget
        },
        Stage::Focus => if o == Outcome::Failed {
            Stage::ReportFocusRefused
        } else {
            after_focus(platform)
        },
        Stage::ReportNoTarget => after_focus(platform),
        Stage::ReportFocusRefused => after_focus(platform),
        Stage::ReportNoDisplay => Stage::Settle,
        Stage::CloseDisplay => Stage::Settle,
        Stage::Settle => Stage::Pause(ChordStep::ShiftDown),
        Stage::Pause(c) => Stage::Press(c),
        Stage::Press(c) => if o == Outcome::Failed {
            Stage::Faulted
        } else {
            match c {
                ChordStep::ShiftDown => Stage::Pause(ChordStep::InsertDown),
                ChordStep::InsertDown => Stage::Pause(ChordStep::InsertUp),
                ChordStep::InsertUp => Stage::Pause(ChordStep::ShiftUp),
                ChordStep::ShiftUp => Stage::Done,
            }
        },
        Stage::Script => if o == Outcome::Failed {
            Stage::Faulted
        } else {
            Stage::Done
        },
        Stage::Faulted => Stage::Faulted,
        Stage::Done => Stage::Done,
    }
}

/// The action that `stage` asks for.
pub open spec fn stage_action(stage: Stage, target: Option<u64>) -> Action {
    match stage {
        Stage::OpenDisplay => Action::OpenDisplay,
        Stage::Focus => Action::Focus { id: target_id(target) },
        Stage::ReportNoTarget => Action::Report { problem: Problem::NoForegroundApp },
        Stage::ReportNoDisplay => Action::Report { problem: Problem::NoDisplay },
        Stage::ReportFocusRefused => Action::Report { problem: Problem::FocusRefused },
        Stage::CloseDisplay => Action::CloseDisplay,
        Stage::Settle => Action::Wait { millis: SETTLE_DELAY_MS },
        Stage::Pause(_) => Action::Wait { millis: KEY_GAP_MS },
        Stage::Press(c) => Action::Key { event: chord_event(c) },
        Stage::Script => Action::TypePasteShortcut,
        Stage::Faulted => Action::Abort { problem: Problem::InjectionFailed },
        Stage::Done => Action::Finish,
    }
}

fn chord_key_event(c: ChordStep) -> (r: KeyEvent)
    ensures
        r == chord_event(c),
{
    match c {
        ChordStep::ShiftDown => KeyEvent::Press(KeyCode::Shift),
        ChordStep::InsertDown => KeyEvent::Press(KeyCode::Insert),
        ChordStep::InsertUp => KeyEvent::Release(KeyCode::Insert),
        ChordStep::ShiftUp => KeyEvent::Release(KeyCode::Shift),
    }
}

fn is_valid_target(target: Option<u64>) -> (r: bool)
    ensures
        r == valid_target(target),
{
    match target {
        Some(id) => id != 0,
        None => false,
    }
}

fn follow_focus(platform: Platform) -> (r: Stage)
    ensures
        r == after_focus(platform),
{
    match platform {
        Platform::MacOs => Stage::Script,
        Platform::Windows => Stage::Settle,
        Platform::Linux => Stage::CloseDisplay,
    }
}

/// One run of the paste action: restore focus to the previous foreground
/// application, let the focus change settle where the platform needs it, then
/// type the paste shortcut.
pub struct PasteSession {
    pub platform: Platform,
    pub target: Option<u64>,
    pub stage: Stage,
}

impl PasteSession {
    /// Starts a paste on `platform`, where `target` is the most recent
    /// foreground application or window, if one is known.
    pub fn new(platform: Platform, target: Option<u64>) -> (r: Self)
        ensures
            r.platform == platform,
            r.target == target,
            r.stage == initial_stage(platform, target),
    {
        let stage = if platform == Platform::Linux {
            Stage::OpenDisplay
        } else if is_valid_target(target) {
            Stage::Focus
        } else {
            Stage::ReportNoTarget
        };
        PasteSession { platform, target, stage }
    }

    /// The action that the current stage asks the caller to perform.
    pub fn action(&self) -> (r: Action)
        ensures
            r == stage_action(self.stage, self.target),
    {
        match self.stage {
            Stage::OpenDisplay => Action::OpenDisplay,
            Stage::Focus => match self.target {
                Some(id) => Action::Focus { id },
                None => Action::Focus { id: 0 },
            },
            Stage::ReportNoTarget => Action::Report { problem: Problem::NoForegroundApp },
            Stage::ReportNoDisplay => Action::Report { problem: Problem::NoDisplay },
            Stage::ReportFocusRefused => Action::Report { problem: Problem::FocusRefused },
            Stage::CloseDisplay => Action::CloseDisplay,
            Stage::Settle => wait(SETTLE_DELAY_MS),
            Stage::Pause(_) => wait(KEY_GAP_MS),
            Stage::Press(c) => Action::Key { event: chord_key_event(c) },
            Stage::Script => Action::TypePasteShortcut,
            Stage::Faulted => Action::Abort { problem: Problem::InjectionFailed },
            Stage::Done => Action::Finish,
        }
    }

    /// True once the session has finished or faulted: its action stays the same from then on.
    pub fn is_finished(&self) -> (r: bool)
        ensures
            r == (self.stage == Stage::Done || self.stage == Stage::Faulted),
    {
        match self.stage {
            Stage::Done | Stage::Faulted => true,
            _ => false,
        }
    }

    /// Records the outcome of the current action and returns the next one.
    pub fn advance(&mut self, outcome: Outcome) -> (r: Action)
        ensures
            final(self).platform == old(self).platform,
            final(self).target == old(self).target,
            final(self).stage == next_stage(old(self).platform, old(self).target, old(self).stage, outcome),
            r == stage_action(final(self).stage, final(self).target),
    {
        let failed = outcome == Outcome::Failed;
        let next = match self.stage {
            Stage::OpenDisplay => if failed {
                Stage::ReportNoDisplay
            } else if is_valid_target(self.target) {
                Stage::Focus
            } else {
                Stage::ReportNoTarget
            },
            Stage::Focus => if failed {
                Stage::ReportFocusRefused
            } else {
                follow_focus(self.platform)
            },
            Stage::ReportNoTarget => follow_focus(self.platform),
            Stage::ReportFocusRefused => follow_focus(self.platform),
            Stage::ReportNoDisplay => Stage::Settle,
            Stage::CloseDisplay => Stage::Settle,
            Stage::Settle => Stage::Pause(ChordStep::ShiftDown),
            Stage::Pause(c) => Stage::Press(c),
            Stage::Press(c) => if failed {
                Stage::Faulted
            } else {
                match c {
                    ChordStep::ShiftDown => Stage::Pause(ChordStep::InsertDown),
                    ChordStep::InsertDown => Stage::Pause(ChordStep::InsertUp),
                    ChordStep::InsertUp => Stage::Pause(ChordStep::ShiftUp),
                    ChordStep::ShiftUp => Stage::Done,
                }
            },
            Stage::Script => if failed {
                Stage::Faulted
            } else {
                Stage::Done
            },
            Stage::Faulted => Stage::Faulted,
            Stage::Done => Stage::Done,
        };
        self.stage = next;
        self.action()
    }
}

} // verus!
