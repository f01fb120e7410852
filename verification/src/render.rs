//! The countdown renderer: per-tick decisions of the live display.
//!
//! Each tick of the render loop first checks the cancellation signal,
//! then polls the OTP source for the remaining seconds, regenerates the
//! code exactly when a rotation boundary was crossed (the polled value
//! exceeds the previously seen one), and describes the terminal work of
//! the tick as a list of actions. The loop that performs the actions —
//! terminal writes, the tick sleep, the clipboard — lives outside the
//! library; every decision is made here.

use vstd::prelude::*;
use vstd::string::StringExecFns;
use crate::otp::{generate_code, poll_remaining, OtpError, TotpParams};
use crate::text::{i32_to_string, int_rep};

verus! {

/// The tick interval of the render loop, in milliseconds.
pub const TICK_MILLIS: u64 = 60;

/// The colour classification of the remaining seconds.
#[derive(Clone, Copy, Debug, PartialEq, Eq, Structural)]
pub enum UrgencyBand {
    Urgent,
    Warning,
    Normal,
}

/// Remaining seconds of zero to five are urgent, six to fifteen are a
/// warning, and everything else is normal.
pub open spec fn band_spec(remaining: int) -> UrgencyBand {
    if 0 <= remaining <= 5 {
        UrgencyBand::Urgent
    } else if 6 <= remaining <= 15 {
        UrgencyBand::Warning
    } else {
        UrgencyBand::Normal
    }
}

/// Classifies the remaining seconds into an urgency band.
pub fn band_of(remaining: i32) -> (b: UrgencyBand)
    ensures
        b == band_spec(remaining as int),
{
    if 0 <= remaining && remaining <= 5 {
        UrgencyBand::Urgent
    } else if 6 <= remaining && remaining <= 15 {
        UrgencyBand::Warning
    } else {
        UrgencyBand::Normal
    }
}

/// What the non-blocking check of the cancellation signal reported.
#[derive(Clone, Copy, Debug, PartialEq, Eq, Structural)]
pub enum SignalStatus {
    /// The listener fired the one-shot signal.
    Fired,
    /// The listener is gone and the channel is closed.
    Disconnected,
    /// Nothing pending.
    Empty,
}

/// A fired signal and a closed channel both end the session.
pub open spec fn should_stop(signal: SignalStatus) -> bool {
    signal is Fired || signal is Disconnected
}

/// Checks whether a signal status ends the session.
pub fn signal_stops(signal: &SignalStatus) -> (b: bool)
    ensures
        b == should_stop(*signal),
{
    match signal {
        SignalStatus::Fired => true,
        SignalStatus::Disconnected => true,
        SignalStatus::Empty => false,
    }
}

/// The renderer-local state: the code on display and the last polled
/// remaining-seconds value.
pub struct DisplayState {
    pub current_code: String,
    pub last_seen_remaining: i32,
}

/// One poll applied to the display state: the code is replaced exactly
/// when the polled value exceeds the last seen one, and the last seen
/// value always becomes the polled one.
pub open spec fn spec_apply(code: Seq<char>, last: int, polled: int, fresh: Seq<char>) -> (
    Seq<char>,
    int,
) {
    if polled > last {
        (fresh, polled)
    } else {
        (code, polled)
    }
}

impl DisplayState {
    /// A fresh session: no code yet, and a last seen value of zero, so
    /// that the first poll always generates a code.
    pub fn new() -> (s: DisplayState)
        ensures
            s.current_code@ == Seq::<char>::empty(),
            s.last_seen_remaining == 0,
    {
        DisplayState { current_code: String::new(), last_seen_remaining: 0 }
    }

    /// A polled value strictly above the last seen one means the
    /// countdown reset upward: a rotation boundary was crossed.
    pub fn crosses_rotation(&self, polled: i32) -> (b: bool)
        ensures
            b == (polled > self.last_seen_remaining),
    {
        polled > self.last_seen_remaining
    }

    /// Records one poll; a fresh code must be supplied exactly when the
    /// rotation boundary was crossed.
    pub fn apply_poll(&mut self, polled: i32, fresh: Option<String>)
        requires
            fresh is Some <==> polled > old(self).last_seen_remaining,
        ensures
            final(self).last_seen_remaining == polled,
            fresh matches Some(c) ==> (final(self).current_code@, final(self).last_seen_remaining as int)
                == spec_apply(old(self).current_code@, old(self).last_seen_remaining as int, polled as int, c@),
            fresh is None ==> (final(self).current_code@, final(self).last_seen_remaining as int)
                == spec_apply(old(self).current_code@, old(self).last_seen_remaining as int, polled as int, Seq::<char>::empty()),
            fresh is None ==> final(self).current_code == old(self).current_code,
    {
        match fresh {
            Some(c) => {
                self.current_code = c;
            },
            None => {},
        }
        self.last_seen_remaining = polled;
    }
}

/// The single rendered line: the code, the remaining seconds and the
/// exit hint.
pub open spec fn line_of(code: Seq<char>, remaining: int) -> Seq<char> {
    code + " ("@ + int_rep(remaining) + "s left) - Esc to exit"@
}

/// Builds the rendered line for a code and a remaining-seconds value.
pub fn render_line(code: &str, remaining: i32) -> (r: String)
    ensures
        r@ == line_of(code@, remaining as int),
{
    let mut s = code.to_owned();
    s.append(" (");
    let num = i32_to_string(remaining);
    s.append(num.as_str());
    s.append("s left) - Esc to exit");
    proof {
        assert(s@ =~= line_of(code@, remaining as int));
    }
    s
}

/// One piece of outside work that a tick asks for. The loop around the
/// library performs them in order.
pub enum Action {
    HideCursor,
    ShowCursor,
    /// Erase the previously rendered line.
    ClearLastLine,
    /// Write the line, styled with the band's colour.
    WriteLine { line: String, band: UrgencyBand },
    /// Sleep for one tick interval.
    SleepTick,
    /// Offer the freshly generated code to the clipboard; failure or an
    /// absent clipboard must be ignored.
    CopyCode { code: String },
}

/// What one tick decided.
pub enum TickStep {
    /// The session ends normally: the user cancelled, or the listener is
    /// gone.
    Stop,
    /// The OTP source failed; the session ends with this error.
    Fail(OtpError),
    /// Render this line, then sleep and erase it; copy a fresh code
    /// first when one was generated.
    Render { line: String, band: UrgencyBand, copy: Option<String> },
}

/// Actions opening a session: the cursor is hidden before anything is
/// rendered.
pub fn enter_actions() -> (ops: Vec<Action>)
    ensures
        ops@ =~= seq![Action::HideCursor],
{
    let mut v: Vec<Action> = Vec::new();
    v.push(Action::HideCursor);
    v
}

/// Actions of a normal exit: the rendered line is erased and the cursor
/// restored.
pub fn stop_actions() -> (ops: Vec<Action>)
    ensures
        ops@ =~= seq![Action::ClearLastLine, Action::ShowCursor],
{
    let mut v: Vec<Action> = Vec::new();
    v.push(Action::ClearLastLine);
    v.push(Action::ShowCursor);
    v
}

/// Actions of a failing exit: even on an error the cursor is restored.
pub fn fail_actions() -> (ops: Vec<Action>)
    ensures
        ops@ =~= seq![Action::ShowCursor],
{
    let mut v: Vec<Action> = Vec::new();
    v.push(Action::ShowCursor);
    v
}

/// No action of the list touches the cursor.
pub open spec fn cursor_free(ops: Seq<Action>) -> bool {
    forall|i: int|
        0 <= i < ops.len() ==> !((#[trigger] ops[i]) is HideCursor || ops[i] is ShowCursor)
}

/// Actions of one rendered tick: optionally copy the fresh code, then
/// write the styled line, sleep one tick and erase the line again. No
/// cursor action occurs inside a tick.
pub fn render_actions(line: String, band: UrgencyBand, copy: Option<String>) -> (ops: Vec<Action>)
    ensures
        copy matches Some(c) ==> ops@ =~= seq![
            Action::CopyCode { code: c },
            Action::WriteLine { line: line, band: band },
            Action::SleepTick,
            Action::ClearLastLine,
        ],
        copy is None ==> ops@ =~= seq![
            Action::WriteLine { line: line, band: band },
            Action::SleepTick,
            Action::ClearLastLine,
        ],
        cursor_free(ops@),
{
    let mut v: Vec<Action> = Vec::new();
    match copy {
        Some(c) => {
            v.push(Action::CopyCode { code: c });
        },
        None => {},
    }
    v.push(Action::WriteLine { line, band });
    v.push(Action::SleepTick);
    v.push(Action::ClearLastLine);
    v
}

/// One tick of the render loop. The signal check comes first and wins;
/// otherwise the OTP source is polled and the code regenerated exactly
/// when the rotation boundary was crossed. The step fails only when the
/// OTP source fails — the clipboard plays no part in the decision.
pub fn tick(state: &mut DisplayState, params: &TotpParams, signal: SignalStatus) -> (r: TickStep)
    requires
        params.wf(),
    ensures
        r is Stop <==> should_stop(signal),
        r is Stop ==> final(state).current_code == old(state).current_code
            && final(state).last_seen_remaining == old(state).last_seen_remaining,
        r is Fail ==> !should_stop(signal) && final(state).current_code == old(state).current_code
            && final(state).last_seen_remaining == old(state).last_seen_remaining,
        r matches TickStep::Render { line, band, copy } ==> ({
            &&& !should_stop(signal)
            &&& 1 <= final(state).last_seen_remaining < 2 * params.period
            &&& band == band_spec(final(state).last_seen_remaining as int)
            &&& line@ == line_of(final(state).current_code@, final(state).last_seen_remaining as int)
            &&& (copy is Some <==> final(state).last_seen_remaining > old(state).last_seen_remaining)
            &&& (copy matches Some(c) ==> c@ == final(state).current_code@)
            &&& (copy is None ==> final(state).current_code == old(state).current_code)
        }),
{
    if signal_stops(&signal) {
        return TickStep::Stop;
    }
    let polled = match poll_remaining(params) {
        Ok(v) => v,
        Err(e) => {
            return TickStep::Fail(e);
        },
    };
    let fresh: Option<String> = if state.crosses_rotation(polled) {
        match generate_code(params) {
            Ok(code) => Some(code),
            Err(e) => {
                return TickStep::Fail(e);
            },
        }
    } else {
        None
    };
    let copy: Option<String> = match &fresh {
        Some(code) => Some(code.clone()),
        None => None,
    };
    state.apply_poll(polled, fresh);
    let line = render_line(state.current_code.as_str(), polled);
    let band = band_of(polled);
    TickStep::Render { line, band, copy }
}

/// The display state after the first `k` polls of a session, starting
/// from `init`. `codes[j]` is the code the OTP source would produce at
/// poll `j`; it is taken up exactly when that poll crosses a rotation
/// boundary.
pub open spec fn state_after(
    init: (Seq<char>, int),
    polls: Seq<i32>,
    codes: Seq<Seq<char>>,
    k: int,
) -> (Seq<char>, int)
    decreases k,
{
    if k <= 0 {
        init
    } else {
        let prev = state_after(init, polls, codes, k - 1);
        spec_apply(prev.0, prev.1, polls[k - 1] as int, codes[k - 1])
    }
}

/// The code is regenerated at poll `k` of the session.
pub open spec fn regen_at(
    init: (Seq<char>, int),
    polls: Seq<i32>,
    codes: Seq<Seq<char>>,
    k: int,
) -> bool {
    polls[k] as int > state_after(init, polls, codes, k).1
}

/// Over any sequence of polled remaining-seconds values, the rendered
/// code is regenerated at a poll exactly when that poll's value is
/// strictly greater than the immediately preceding one (the initial
/// last-seen value before the first); on regeneration the code becomes
/// the freshly produced one, otherwise it is left unchanged.
pub proof fn lemma_code_changes_iff_increase(
    init: (Seq<char>, int),
    polls: Seq<i32>,
    codes: Seq<Seq<char>>,
    k: int,
)
    requires
        0 <= k < polls.len(),
        polls.len() <= codes.len(),
    ensures
        regen_at(init, polls, codes, k) <==> polls[k] as int > (
            if k == 0 {
                init.1
            } else {
                polls[k - 1] as int
            }
        ),
        state_after(init, polls, codes, k + 1).0 == (
            if regen_at(init, polls, codes, k) {
                codes[k]
            } else {
                state_after(init, polls, codes, k).0
            }
        ),
        state_after(init, polls, codes, k + 1).1 == polls[k] as int,
{
    if k == 0 {
        assert(state_after(init, polls, codes, 0) == init);
    } else {
        assert(state_after(init, polls, codes, k).1 == polls[k - 1] as int);
    }
}

/// The cursor visibility after performing `ops`, starting from `vis`.
pub open spec fn cursor_after(ops: Seq<Action>, vis: bool) -> bool
    decreases ops.len(),
{
    if ops.len() == 0 {
        vis
    } else {
        let v1 = match ops[0] {
            Action::HideCursor => false,
            Action::ShowCursor => true,
            _ => vis,
        };
        cursor_after(ops.drop_first(), v1)
    }
}

/// Actions that never touch the cursor leave its visibility alone.
pub proof fn lemma_cursor_free_keeps(ops: Seq<Action>, vis: bool)
    requires
        cursor_free(ops),
    ensures
        cursor_after(ops, vis) == vis,
    decreases ops.len(),
{
    if ops.len() > 0 {
        assert(forall|i: int|
            0 <= i < ops.drop_first().len() ==> #[trigger] ops.drop_first()[i] == ops[i + 1]);
        lemma_cursor_free_keeps(ops.drop_first(), vis);
    }
}

/// Cursor visibility threads through concatenation.
pub proof fn lemma_cursor_after_concat(a: Seq<Action>, b: Seq<Action>, vis: bool)
    ensures
        cursor_after(a + b, vis) == cursor_after(b, cursor_after(a, vis)),
    decreases a.len(),
{
    if a.len() == 0 {
        assert(a + b =~= b);
    } else {
        assert((a + b)[0] == a[0]);
        assert((a + b).drop_first() =~= a.drop_first() + b);
        let v1 = match a[0] {
            Action::HideCursor => false,
            Action::ShowCursor => true,
            _ => vis,
        };
        lemma_cursor_after_concat(a.drop_first(), b, v1);
    }
}

/// Whatever path ends a renderer session — cancellation with its line
/// erase, or a failing exit — the cursor is visible afterwards: the
/// session hides it once on entry, no tick action touches it, and every
/// exit shows it again. When the cursor was visible before the session,
/// its state is therefore restored exactly.
pub proof fn lemma_cursor_restored(body: Seq<Action>, exit: Seq<Action>, vis: bool)
    requires
        cursor_free(body),
        exit =~= seq![Action::ClearLastLine, Action::ShowCursor] || exit =~= seq![
            Action::ShowCursor,
        ],
    ensures
        cursor_after(seq![Action::HideCursor] + body + exit, vis) == true,
{
    let enter = seq![Action::HideCursor];
    lemma_cursor_after_concat(enter + body, exit, vis);
    lemma_cursor_after_concat(enter, body, vis);
    assert(cursor_after(Seq::<Action>::empty(), false) == false);
    assert(cursor_after(Seq::<Action>::empty(), true) == true);
    assert(enter.drop_first() =~= Seq::<Action>::empty());
    assert(enter[0] is HideCursor);
    assert(cursor_after(enter, vis) == cursor_after(enter.drop_first(), false));
    assert(cursor_after(enter, vis) == false);
    lemma_cursor_free_keeps(body, false);
    let show = seq![Action::ShowCursor];
    assert(show.drop_first() =~= Seq::<Action>::empty());
    assert(show[0] is ShowCursor);
    assert(cursor_after(show, false) == cursor_after(show.drop_first(), true));
    assert(cursor_after(show, false) == true);
    if exit =~= seq![Action::ClearLastLine, Action::ShowCursor] {
        assert(exit[0] is ClearLastLine);
        assert(cursor_after(exit, false) == cursor_after(exit.drop_first(), false));
        assert(exit.drop_first() =~= show);
        assert(cursor_after(exit, false) == true);
    } else {
        assert(exit =~= show);
        assert(cursor_after(exit, false) == true);
    }
}

/// The number of ticks a session runs when only cancellation can end it:
/// every tick checks the signal once, and the first pending signal ends
/// the session immediately.
pub open spec fn ticks_run(signals: Seq<SignalStatus>) -> int
    decreases signals.len(),
{
    if signals.len() == 0 {
        0
    } else if should_stop(signals[0]) {
        1
    } else {
        1 + ticks_run(signals.drop_first())
    }
}

/// Cancellation is honoured within one tick: when the signal becomes
/// pending before the check of tick `k` and was not pending earlier, the
/// session runs exactly `k + 1` ticks — the tick that sees the signal
/// stops at once, and it stops with a normal exit, not an error.
pub proof fn lemma_cancel_within_one_tick(signals: Seq<SignalStatus>, k: int)
    requires
        0 <= k < signals.len(),
        should_stop(signals[k]),
        forall|j: int| 0 <= j < k ==> !should_stop(#[trigger] signals[j]),
    ensures
        ticks_run(signals) == k + 1,
    decreases k,
{
    if k == 0 {
    } else {
        assert(forall|i: int|
            0 <= i < signals.drop_first().len() ==> #[trigger] signals.drop_first()[i] == signals[
                i + 1
            ]);
        lemma_cancel_within_one_tick(signals.drop_first(), k - 1);
    }
}

/// How a simulated renderer session ended, and the display state it
/// ended with.
pub struct SessionEnd {
    /// The session ended through the cancellation signal; with finite
    /// inputs the only other end is running out of ticks.
    pub cancelled: bool,
    pub state: DisplayState,
}

/// Some tick of the session sees a pending signal.
pub open spec fn some_signal_stops(signals: Seq<SignalStatus>) -> bool {
    exists|j: int| 0 <= j < signals.len() && should_stop(#[trigger] signals[j])
}

/// How many ticks render before the session ends: every tick up to the
/// first pending signal, or all of them when no signal comes.
pub open spec fn rendered_ticks(signals: Seq<SignalStatus>) -> int {
    if some_signal_stops(signals) {
        ticks_run(signals) - 1
    } else {
        signals.len() as int
    }
}

/// Runs the render-loop state machine over pre-polled inputs: one signal
/// status, one polled value, one generated code and one clipboard write
/// result per tick. The clipboard results are consumed tick by tick,
/// exactly as the loop around the library consumes them, and ignored: no
/// `ensures` clause mentions them, so the session's end and its final
/// display state are functions of the signals, polls and codes alone — a
/// failing or absent clipboard never changes a decision and never ends
/// the session.
pub fn simulate_session(
    signals: &Vec<SignalStatus>,
    polls: &Vec<i32>,
    codes: &Vec<String>,
    copy_results: &Vec<bool>,
) -> (end: SessionEnd)
    requires
        polls@.len() == signals@.len(),
        codes@.len() == signals@.len(),
        copy_results@.len() == signals@.len(),
    ensures
        end.cancelled == some_signal_stops(signals@),
        end.state.current_code@ == state_after(
            (Seq::<char>::empty(), 0),
            polls@,
            codes@.map_values(|s: String| s@),
            rendered_ticks(signals@),
        ).0,
        end.state.last_seen_remaining as int == state_after(
            (Seq::<char>::empty(), 0),
            polls@,
            codes@.map_values(|s: String| s@),
            rendered_ticks(signals@),
        ).1,
{
    let ghost init: (Seq<char>, int) = (Seq::<char>::empty(), 0);
    let ghost codes_view: Seq<Seq<char>> = codes@.map_values(|s: String| s@);
    let mut state = DisplayState::new();
    let mut k: usize = 0;
    while k < signals.len()
        invariant
            polls@.len() == signals@.len(),
            codes@.len() == signals@.len(),
            copy_results@.len() == signals@.len(),
            codes_view == codes@.map_values(|s: String| s@),
            init == (Seq::<char>::empty(), 0int),
            k <= signals@.len(),
            forall|j: int| 0 <= j < k as int ==> !should_stop(#[trigger] signals@[j]),
            state.current_code@ == state_after(init, polls@, codes_view, k as int).0,
            state.last_seen_remaining as int == state_after(init, polls@, codes_view, k as int).1,
        decreases signals@.len() - k,
    {
        if signal_stops(&signals[k]) {
            proof {
                lemma_cancel_within_one_tick(signals@, k as int);
                assert(some_signal_stops(signals@));
                assert(rendered_ticks(signals@) == k as int);
            }
            return SessionEnd { cancelled: true, state };
        }
        let polled = polls[k];
        let fresh: Option<String> = if state.crosses_rotation(polled) {
            // The write result is read and dropped, as the performing
            // loop must do with a failing or absent clipboard.
            let _write_accepted = copy_results[k];
            Some(codes[k].clone())
        } else {
            None
        };
        state.apply_poll(polled, fresh);
        proof {
            assert(codes_view[k as int] == codes@[k as int]@);
            assert(state_after(init, polls@, codes_view, k as int + 1) == spec_apply(
                state_after(init, polls@, codes_view, k as int).0,
                state_after(init, polls@, codes_view, k as int).1,
                polls@[k as int] as int,
                codes_view[k as int],
            ));
        }
        k = k + 1;
    }
    proof {
        assert(!some_signal_stops(signals@));
    }
    SessionEnd { cancelled: false, state }
}

/// Runs the rotation-detection state machine over a whole sequence of
/// polled values, handing it the code each poll would produce, and
/// reports at which polls the code was regenerated.
pub fn simulate_polls(polls: &Vec<i32>, codes: &Vec<String>) -> (regens: Vec<bool>)
    requires
        codes@.len() == polls@.len(),
    ensures
        regens@.len() == polls@.len(),
        forall|k: int|
            0 <= k < polls@.len() ==> #[trigger] regens@[k] == regen_at(
                (Seq::<char>::empty(), 0),
                polls@,
                codes@.map_values(|s: String| s@),
                k,
            ),
{
    let ghost init: (Seq<char>, int) = (Seq::<char>::empty(), 0);
    let ghost codes_view: Seq<Seq<char>> = codes@.map_values(|s: String| s@);
    let mut state = DisplayState::new();
    let mut regens: Vec<bool> = Vec::new();
    let mut i: usize = 0;
    while i < polls.len()
        invariant
            codes@.len() == polls@.len(),
            codes_view == codes@.map_values(|s: String| s@),
            i <= polls@.len(),
            regens@.len() == i as int,
            state.current_code@ == state_after(init, polls@, codes_view, i as int).0,
            state.last_seen_remaining as int == state_after(init, polls@, codes_view, i as int).1,
            init == (Seq::<char>::empty(), 0int),
            forall|k: int|
                0 <= k < i as int ==> #[trigger] regens@[k] == regen_at(
                    init,
                    polls@,
                    codes_view,
                    k,
                ),
        decreases polls@.len() - i,
    {
        let polled = polls[i];
        let regen = state.crosses_rotation(polled);
        regens.push(regen);
        let fresh: Option<String> = if regen {
            Some(codes[i].clone())
        } else {
            None
        };
        state.apply_poll(polled, fresh);
        proof {
            assert(codes_view[i as int] == codes@[i as int]@);
            assert(state_after(init, polls@, codes_view, i as int + 1) == spec_apply(
                state_after(init, polls@, codes_view, i as int).0,
                state_after(init, polls@, codes_view, i as int).1,
                polls@[i as int] as int,
                codes_view[i as int],
            ));
        }
        i = i + 1;
    }
    regens
}

} // verus!
