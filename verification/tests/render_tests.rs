use aegis_otp::otp::{Algo, OtpError, TotpParams};
use aegis_otp::render::{
    band_of, enter_actions, fail_actions, render_actions, render_line, signal_stops,
    simulate_polls, simulate_session, stop_actions, tick, Action, DisplayState, SignalStatus,
    TickStep, UrgencyBand, TICK_MILLIS,
};
use aegis_otp::text::{i32_to_string, u64_to_string};

fn totp_params() -> TotpParams {
    TotpParams {
        secret: "4SJHB4GSD43FZBAI7C2HLRJGPQ".to_string(),
        algo: Algo::Sha1,
        digits: 6,
        period: 30,
    }
}

#[test]
fn urgency_band_boundaries() {
    assert_eq!(band_of(5), UrgencyBand::Urgent);
    assert_eq!(band_of(6), UrgencyBand::Warning);
    assert_eq!(band_of(15), UrgencyBand::Warning);
    assert_eq!(band_of(16), UrgencyBand::Normal);
}

#[test]
fn urgency_band_edges() {
    assert_eq!(band_of(0), UrgencyBand::Urgent);
    assert_eq!(band_of(1), UrgencyBand::Urgent);
    assert_eq!(band_of(30), UrgencyBand::Normal);
    assert_eq!(band_of(-1), UrgencyBand::Normal);
}

#[test]
fn single_regeneration_at_rollover() {
    // A full countdown from 10 to 1, then the rollover to a period of 30.
    let mut polls: Vec<i32> = Vec::new();
    let mut remaining = 10;
    while remaining >= 1 {
        polls.push(remaining);
        remaining -= 1;
    }
    let mut upwards = 30;
    while upwards >= 28 {
        polls.push(upwards);
        upwards -= 1;
    }
    let codes: Vec<String> = (0..polls.len()).map(|i| format!("code{}", i)).collect();
    let regens = simulate_polls(&polls, &codes);
    assert_eq!(regens.len(), polls.len());
    // The very first poll generates the initial code; after that, exactly
    // one regeneration happens, at the 1 -> 30 transition.
    assert!(regens[0]);
    let later: Vec<usize> = (1..regens.len()).filter(|&i| regens[i]).collect();
    assert_eq!(later, vec![10]);
    assert_eq!(polls[10], 30);
}

#[test]
fn code_changes_only_on_increase() {
    let polls = vec![5, 5, 4, 6, 6, 2];
    let codes: Vec<String> = (0..polls.len()).map(|i| format!("c{}", i)).collect();
    let regens = simulate_polls(&polls, &codes);
    assert_eq!(regens, vec![true, false, false, true, false, false]);
}

#[test]
fn rendered_line_layout() {
    let line = render_line("123456", 7);
    assert_eq!(line, "123456 (7s left) - Esc to exit");
    let negative = render_line("", -3);
    assert_eq!(negative, " (-3s left) - Esc to exit");
}

#[test]
fn decimal_rendering() {
    assert_eq!(u64_to_string(0), "0");
    assert_eq!(u64_to_string(1234567890), "1234567890");
    assert_eq!(u64_to_string(u64::MAX), "18446744073709551615");
    assert_eq!(i32_to_string(0), "0");
    assert_eq!(i32_to_string(-45), "-45");
    assert_eq!(i32_to_string(i32::MIN), "-2147483648");
}

#[test]
fn display_state_tracks_polls() {
    let mut state = DisplayState::new();
    assert_eq!(state.current_code, "");
    assert_eq!(state.last_seen_remaining, 0);
    assert!(state.crosses_rotation(10));
    state.apply_poll(10, Some("111111".to_string()));
    assert_eq!(state.current_code, "111111");
    assert_eq!(state.last_seen_remaining, 10);
    assert!(!state.crosses_rotation(9));
    state.apply_poll(9, None);
    assert_eq!(state.current_code, "111111");
    assert_eq!(state.last_seen_remaining, 9);
}

#[test]
fn signal_semantics() {
    assert!(signal_stops(&SignalStatus::Fired));
    assert!(signal_stops(&SignalStatus::Disconnected));
    assert!(!signal_stops(&SignalStatus::Empty));
}

#[test]
fn cancellation_stops_tick_immediately() {
    let params = totp_params();
    let mut state = DisplayState::new();
    let step = tick(&mut state, &params, SignalStatus::Fired);
    assert!(matches!(step, TickStep::Stop));
    assert_eq!(state.last_seen_remaining, 0);
    assert_eq!(state.current_code, "");
    let step = tick(&mut state, &params, SignalStatus::Disconnected);
    assert!(matches!(step, TickStep::Stop));
}

#[test]
fn first_tick_generates_and_copies() {
    let params = totp_params();
    let mut state = DisplayState::new();
    let step = tick(&mut state, &params, SignalStatus::Empty);
    match step {
        TickStep::Render { line, band, copy } => {
            assert!(state.last_seen_remaining >= 1);
            assert!(state.last_seen_remaining <= 30);
            assert_eq!(state.current_code.len(), 6);
            assert!(state.current_code.chars().all(|c| c.is_ascii_digit()));
            let copied = copy.expect("the first poll crosses the rotation boundary");
            assert_eq!(copied, state.current_code);
            assert_eq!(band, band_of(state.last_seen_remaining));
            assert_eq!(
                line,
                format!(
                    "{} ({}s left) - Esc to exit",
                    state.current_code, state.last_seen_remaining
                )
            );
        },
        _ => panic!("expected a rendered tick"),
    }
    // An immediate second tick keeps rendering; it must not stop or fail.
    let step = tick(&mut state, &params, SignalStatus::Empty);
    assert!(matches!(step, TickStep::Render { .. }));
}

#[test]
fn bad_secret_fails_tick() {
    let params = TotpParams {
        secret: "not base32 at all!!!".to_string(),
        algo: Algo::Sha1,
        digits: 6,
        period: 30,
    };
    let mut state = DisplayState::new();
    let step = tick(&mut state, &params, SignalStatus::Empty);
    match step {
        TickStep::Fail(OtpError { message }) => {
            assert!(!message.is_empty());
        },
        _ => panic!("expected the OTP source to fail on a bad secret"),
    }
    // The failure leaves the state alone.
    assert_eq!(state.last_seen_remaining, 0);
    assert_eq!(state.current_code, "");
}

#[test]
fn clipboard_results_never_change_a_session() {
    let signals = vec![
        SignalStatus::Empty,
        SignalStatus::Empty,
        SignalStatus::Empty,
        SignalStatus::Empty,
    ];
    let polls = vec![2, 1, 30, 29];
    let codes: Vec<String> = (0..4).map(|i| format!("code{}", i)).collect();
    let all_ok = vec![true, true, true, true];
    let all_failed = vec![false, false, false, false];
    let with_clipboard = simulate_session(&signals, &polls, &codes, &all_ok);
    let without_clipboard = simulate_session(&signals, &polls, &codes, &all_failed);
    // Every failed (or absent-clipboard) write leaves the session exactly
    // as a successful one does: same end, same code, same countdown.
    assert_eq!(with_clipboard.cancelled, without_clipboard.cancelled);
    assert_eq!(with_clipboard.state.current_code, without_clipboard.state.current_code);
    assert_eq!(
        with_clipboard.state.last_seen_remaining,
        without_clipboard.state.last_seen_remaining
    );
    assert!(!with_clipboard.cancelled);
    assert_eq!(with_clipboard.state.current_code, "code2");
    assert_eq!(with_clipboard.state.last_seen_remaining, 29);
}

#[test]
fn session_stops_at_first_pending_signal() {
    let signals = vec![SignalStatus::Empty, SignalStatus::Empty, SignalStatus::Fired];
    let polls = vec![5, 4, 3];
    let codes: Vec<String> = (0..3).map(|i| format!("k{}", i)).collect();
    let copies = vec![false, false, false];
    let end = simulate_session(&signals, &polls, &codes, &copies);
    assert!(end.cancelled);
    // The pending signal is honoured before the third poll is taken.
    assert_eq!(end.state.last_seen_remaining, 4);
    assert_eq!(end.state.current_code, "k0");
}

#[test]
fn session_action_lists() {
    assert_eq!(TICK_MILLIS, 60);
    let enter = enter_actions();
    assert_eq!(enter.len(), 1);
    assert!(matches!(enter[0], Action::HideCursor));
    let stop = stop_actions();
    assert_eq!(stop.len(), 2);
    assert!(matches!(stop[0], Action::ClearLastLine));
    assert!(matches!(stop[1], Action::ShowCursor));
    let fail = fail_actions();
    assert_eq!(fail.len(), 1);
    assert!(matches!(fail[0], Action::ShowCursor));
}

#[test]
fn render_tick_actions() {
    let with_copy = render_actions(
        "line".to_string(),
        UrgencyBand::Normal,
        Some("222222".to_string()),
    );
    assert_eq!(with_copy.len(), 4);
    assert!(matches!(&with_copy[0], Action::CopyCode { code } if code == "222222"));
    assert!(
        matches!(&with_copy[1], Action::WriteLine { line, band } if line == "line" && *band == UrgencyBand::Normal)
    );
    assert!(matches!(with_copy[2], Action::SleepTick));
    assert!(matches!(with_copy[3], Action::ClearLastLine));
    let plain = render_actions("l".to_string(), UrgencyBand::Urgent, None);
    assert_eq!(plain.len(), 3);
    assert!(matches!(&plain[0], Action::WriteLine { .. }));
    // No action of a tick touches the cursor.
    for op in plain.iter().chain(with_copy.iter()) {
        assert!(!matches!(op, Action::HideCursor | Action::ShowCursor));
    }
}
