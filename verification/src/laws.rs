//! Laws of the state machine, proved once and for all over the fold
//! functions `step` and `key_step`.

use vstd::prelude::*;

use crate::action::Action;
use crate::home::{key_step, schedule_of, step, HomeView, Mode};
use crate::keys::{KeyCode, KeyEvent};
use crate::scheduler::ScheduleRequest;

verus! {

/// Law: moving the counter up by `n` and then down by `n` restores it.
/// The one exception is a move that clamps at the numeric maximum, which
/// the premise leaves out; clamping at zero cannot strike, since right
/// after the upward move the counter is at least `n`.
pub proof fn lemma_increment_decrement_round_trip(s: HomeView, n: usize)
    requires
        s.counter + n <= usize::MAX,
    ensures
        step(step(s, Action::Increment(n)), Action::Decrement(n)).counter == s.counter,
{
}

/// Law: asking to enter Normal mode while already in Normal changes
/// nothing at all.
pub proof fn lemma_enter_normal_idempotent(s: HomeView)
    requires
        s.mode == Mode::Normal,
    ensures
        step(s, Action::EnterNormal) == s,
{
    assert(step(s, Action::EnterNormal) =~= s);
}

/// Law: folding a scheduled increment in Normal mode leaves the state
/// untouched and yields a request to move the counter up by one. Folding
/// that request's bracket in order shows Processing as the only
/// intermediate mode — the first action changes the mode and nothing
/// else — and ends with the counter one higher (saturating), the list
/// cursor one step forward, and the mode back at Normal.
pub proof fn lemma_scheduled_increment_bracket(s: HomeView)
    requires
        s.mode == Mode::Normal,
    ensures
        step(s, Action::ScheduleIncrement) == s,
        schedule_of(s, Action::ScheduleIncrement) == Some(
            ScheduleRequest { amount: 1, increase: true },
        ),
        step(s, Action::EnterProcessing) == (HomeView { mode: Mode::Processing, ..s }),
        step(step(step(s, Action::EnterProcessing), Action::Increment(1)), Action::ExitProcessing)
            == (HomeView {
            counter: s.counter.saturating_add(1),
            cursor: s.cursor.next_spec(),
            ..s
        }),
{
    assert(step(s, Action::ScheduleIncrement) =~= s);
    assert(step(s, Action::EnterProcessing) =~= (HomeView { mode: Mode::Processing, ..s }));
    assert(step(
        step(step(s, Action::EnterProcessing), Action::Increment(1)),
        Action::ExitProcessing,
    ) =~= (HomeView { counter: s.counter.saturating_add(1), cursor: s.cursor.next_spec(), ..s }));
}

/// Law: submitting the composed line from Insert mode — the Enter key,
/// whose bus action and returned transition are then folded in order —
/// appends exactly that line to the history (both panels), leaves the
/// buffer empty, and moves the mode to Normal. The counter and the tick
/// counters do not move.
pub proof fn lemma_submit_input(s: HomeView, line: String, key: KeyEvent)
    requires
        s.mode == Mode::Insert,
        key.code == KeyCode::Enter,
        line@ == s.input,
    ensures
        key_step(s, key).input == Seq::<char>::empty(),
        ({
            let done = step(step(key_step(s, key), Action::CompleteInput(line)), Action::EnterNormal);
            &&& done.mode == Mode::Normal
            &&& done.text == s.text.push(line)
            &&& done.text_list == s.text_list.push(line)
            &&& done.input == Seq::<char>::empty()
            &&& done.counter == s.counter
            &&& done.app_ticker == s.app_ticker
        }),
{
}

} // verus!
