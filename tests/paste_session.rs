use focus_paste::action::{
    first_foreground, wait, Action, KeyCode, KeyEvent, Outcome, Platform, Problem, KEY_GAP_MS,
    SETTLE_DELAY_MS,
};
use focus_paste::session::{PasteSession, Stage};

/// A fake operating system: records every action, keeps a simulated clock,
/// and fails the actions whose position is listed in `fail_at`.
struct FakeOs {
    log: Vec<(u64, Action)>,
    clock: u64,
    fail_at: Vec<usize>,
}

impl FakeOs {
    fn new(fail_at: Vec<usize>) -> FakeOs {
        FakeOs { log: Vec::new(), clock: 0, fail_at }
    }

    fn perform(&mut self, a: Action) -> Outcome {
        let index = self.log.len();
        self.log.push((self.clock, a));
        if let Action::Wait { millis } = a {
            self.clock += millis;
        }
        if self.fail_at.contains(&index) {
            Outcome::Failed
        } else {
            Outcome::Succeeded
        }
    }

    fn actions(&self) -> Vec<Action> {
        self.log.iter().map(|(_, a)| *a).collect()
    }

    fn keys(&self) -> Vec<KeyEvent> {
        self.log
            .iter()
            .filter_map(|(_, a)| match a {
                Action::Key { event } => Some(*event),
                _ => None,
            })
            .collect()
    }
}

fn drive(platform: Platform, target: Option<u64>, fail_at: Vec<usize>) -> FakeOs {
    let mut os = FakeOs::new(fail_at);
    let mut session = PasteSession::new(platform, target);
    let mut action = session.action();
    let mut steps = 0;
    while !session.is_finished() {
        let outcome = os.perform(action);
        action = session.advance(outcome);
        steps += 1;
        assert!(steps < 100);
    }
    os.perform(action);
    os
}

fn chord() -> Vec<KeyEvent> {
    vec![
        KeyEvent::Press(KeyCode::Shift),
        KeyEvent::Press(KeyCode::Insert),
        KeyEvent::Release(KeyCode::Insert),
        KeyEvent::Release(KeyCode::Shift),
    ]
}

#[test]
fn first_foreground_of_empty_list_is_none() {
    assert_eq!(first_foreground(&vec![]), None);
}

#[test]
fn first_foreground_takes_the_most_recent() {
    assert_eq!(first_foreground(&vec![42, 7, 9]), Some(42));
}

#[test]
fn wait_asks_for_the_given_sleep() {
    assert_eq!(wait(250), Action::Wait { millis: 250 });
    assert_eq!(SETTLE_DELAY_MS, 100);
    assert_eq!(KEY_GAP_MS, 20);
}

#[test]
fn empty_list_reports_and_does_not_fault() {
    for platform in [Platform::MacOs, Platform::Windows, Platform::Linux] {
        let os = drive(platform, first_foreground(&vec![]), vec![]);
        let acts = os.actions();
        assert!(acts.contains(&Action::Report { problem: Problem::NoForegroundApp }));
        assert!(!acts.iter().any(|a| matches!(a, Action::Focus { .. })));
        assert!(!acts.iter().any(|a| matches!(a, Action::Abort { .. })));
        assert_eq!(acts.last(), Some(&Action::Finish));
    }
}

#[test]
fn null_handle_is_reported_on_windows() {
    let os = drive(Platform::Windows, Some(0), vec![]);
    assert_eq!(os.actions()[0], Action::Report { problem: Problem::NoForegroundApp });
    assert_eq!(os.keys(), chord());
}

#[test]
fn one_focus_call_before_any_input() {
    for platform in [Platform::MacOs, Platform::Windows, Platform::Linux] {
        let os = drive(platform, Some(77), vec![]);
        let acts = os.actions();
        let focus: Vec<usize> = (0..acts.len()).filter(|&i| matches!(acts[i], Action::Focus { .. })).collect();
        assert_eq!(focus.len(), 1);
        assert_eq!(acts[focus[0]], Action::Focus { id: 77 });
        let first_input = acts
            .iter()
            .position(|a| matches!(a, Action::Key { .. } | Action::TypePasteShortcut))
            .unwrap();
        assert!(focus[0] < first_input);
    }
}

#[test]
fn settle_delay_between_focus_and_first_key() {
    for platform in [Platform::Windows, Platform::Linux] {
        let os = drive(platform, Some(5), vec![]);
        let focus_time = os.log.iter().find(|(_, a)| matches!(a, Action::Focus { .. })).unwrap().0;
        let key_time = os.log.iter().find(|(_, a)| matches!(a, Action::Key { .. })).unwrap().0;
        assert!(key_time - focus_time >= 100);
        assert_eq!(key_time - focus_time, 120);
    }
}

#[test]
fn chord_events_in_order_with_gaps() {
    for platform in [Platform::Windows, Platform::Linux] {
        let os = drive(platform, Some(5), vec![]);
        assert_eq!(os.keys(), chord());
        let times: Vec<u64> = os
            .log
            .iter()
            .filter(|(_, a)| matches!(a, Action::Key { .. }))
            .map(|(t, _)| *t)
            .collect();
        for w in times.windows(2) {
            assert!(w[1] - w[0] >= 20);
        }
    }
}

#[test]
fn windows_success_sequence() {
    let os = drive(Platform::Windows, Some(9), vec![]);
    assert_eq!(
        os.actions(),
        vec![
            Action::Focus { id: 9 },
            Action::Wait { millis: 100 },
            Action::Wait { millis: 20 },
            Action::Key { event: KeyEvent::Press(KeyCode::Shift) },
            Action::Wait { millis: 20 },
            Action::Key { event: KeyEvent::Press(KeyCode::Insert) },
            Action::Wait { millis: 20 },
            Action::Key { event: KeyEvent::Release(KeyCode::Insert) },
            Action::Wait { millis: 20 },
            Action::Key { event: KeyEvent::Release(KeyCode::Shift) },
            Action::Finish,
        ]
    );
}

#[test]
fn macos_runs_script_without_delay() {
    let os = drive(Platform::MacOs, Some(301), vec![]);
    assert_eq!(
        os.actions(),
        vec![Action::Focus { id: 301 }, Action::TypePasteShortcut, Action::Finish]
    );
}

#[test]
fn failure_after_second_key_stops_input() {
    // Windows: focus, settle, gap, Shift down, gap, Insert down (position 5) fails.
    let os = drive(Platform::Windows, Some(9), vec![5]);
    assert_eq!(os.keys(), chord()[..2].to_vec());
    assert_eq!(
        os.actions().last(),
        Some(&Action::Abort { problem: Problem::InjectionFailed })
    );
}

#[test]
fn failed_first_key_issues_nothing_more() {
    let os = drive(Platform::Linux, Some(9), vec![5]);
    assert_eq!(os.keys(), chord()[..1].to_vec());
    assert_eq!(
        os.actions().last(),
        Some(&Action::Abort { problem: Problem::InjectionFailed })
    );
}

#[test]
fn failed_script_aborts() {
    let os = drive(Platform::MacOs, Some(301), vec![1]);
    assert_eq!(
        os.actions(),
        vec![
            Action::Focus { id: 301 },
            Action::TypePasteShortcut,
            Action::Abort { problem: Problem::InjectionFailed },
        ]
    );
}

#[test]
fn refused_focus_is_logged_and_paste_goes_on() {
    let os = drive(Platform::Windows, Some(9), vec![0]);
    assert_eq!(os.actions()[1], Action::Report { problem: Problem::FocusRefused });
    assert_eq!(os.keys(), chord());
}

fn closes(os: &FakeOs) -> usize {
    os.actions().iter().filter(|a| **a == Action::CloseDisplay).count()
}

#[test]
fn display_closed_on_success() {
    let os = drive(Platform::Linux, Some(12), vec![]);
    assert_eq!(
        os.actions()[..3].to_vec(),
        vec![Action::OpenDisplay, Action::Focus { id: 12 }, Action::CloseDisplay]
    );
    assert_eq!(closes(&os), 1);
}

#[test]
fn display_closed_when_window_lookup_fails() {
    let os = drive(Platform::Linux, None, vec![]);
    assert_eq!(
        os.actions()[..3].to_vec(),
        vec![
            Action::OpenDisplay,
            Action::Report { problem: Problem::NoForegroundApp },
            Action::CloseDisplay
        ]
    );
    assert_eq!(closes(&os), 1);
}

#[test]
fn display_closed_when_focus_refused() {
    let os = drive(Platform::Linux, Some(12), vec![1]);
    assert_eq!(os.actions()[2], Action::Report { problem: Problem::FocusRefused });
    assert_eq!(os.actions()[3], Action::CloseDisplay);
    assert_eq!(closes(&os), 1);
    assert_eq!(os.keys(), chord());
}

#[test]
fn display_that_did_not_open_is_not_closed() {
    let os = drive(Platform::Linux, Some(12), vec![0]);
    let acts = os.actions();
    assert_eq!(acts[1], Action::Report { problem: Problem::NoDisplay });
    assert_eq!(closes(&os), 0);
    assert!(!acts.iter().any(|a| matches!(a, Action::Focus { .. })));
    assert_eq!(os.keys(), chord());
}

#[test]
fn finished_session_repeats_its_last_action() {
    let mut s = PasteSession::new(Platform::MacOs, Some(3));
    assert_eq!(s.action(), Action::Focus { id: 3 });
    assert_eq!(s.advance(Outcome::Succeeded), Action::TypePasteShortcut);
    assert_eq!(s.advance(Outcome::Succeeded), Action::Finish);
    assert!(s.is_finished());
    assert_eq!(s.stage, Stage::Done);
    assert_eq!(s.advance(Outcome::Failed), Action::Finish);
}
