//! What the operations of the controller do to the board, proved from the
//! commands they consist of.
//!
//! Every law starts from a board that agrees with the controller's
//! register: the board runs the registered tasks and no others. The laws
//! show that each operation keeps that agreement, so it holds after any
//! number of operations on a board that was brought up.

use crate::board::{lemma_run_concat, lemma_run_one, lemma_run_push, Board};
use crate::command::{
    all_off_steps, blink_step, blink_steps, cancel_all_steps, cancel_steps, open_steps, set_steps,
    staged, startup_steps, write_all_steps, write_step, Command,
};
use crate::leds::{pin_of, valid_led, well_formed, LedState, LED_COUNT};
use vstd::prelude::*;

verus! {

/// Whether the board has no stray task at any point while `steps` are
/// performed: no light is ever toggled by two tasks at once.
pub open spec fn tidy(board: Board, steps: Seq<Command>) -> bool {
    forall|k: int| 0 <= k <= steps.len() ==> board.run(#[trigger] steps.take(k)).strays.is_empty()
}

/// Steps that are tidy one after the other are tidy together.
pub proof fn lemma_tidy_concat(board: Board, first: Seq<Command>, second: Seq<Command>)
    requires
        tidy(board, first),
        tidy(board.run(first), second),
    ensures
        tidy(board, first + second),
{
    let both = first + second;
    assert forall|k: int| 0 <= k <= both.len() implies board.run(
        #[trigger] both.take(k),
    ).strays.is_empty() by {
        if k <= first.len() {
            assert(both.take(k) =~= first.take(k));
        } else {
            let rest = second.take(k - first.len());
            assert(both.take(k) =~= first + rest);
            lemma_run_concat(board, first, rest);
        }
    }
}

/// Stopping the blinking of a light takes its task off the board and
/// touches nothing else.
pub proof fn lemma_cancel(board: Board, blinking: Map<u8, u64>, led: u8)
    requires
        board.agrees(blinking),
    ensures
        board.run(cancel_steps(blinking, led)) == (Board {
            tasks: blinking.remove(led),
            ..board
        }),
        tidy(board, cancel_steps(blinking, led)),
{
    let steps = cancel_steps(blinking, led);
    if blinking.contains_key(led) {
        lemma_run_one(board, Command::CancelBlink { led });
    } else {
        assert(blinking.remove(led) =~= blinking);
    }
    assert forall|k: int| 0 <= k <= steps.len() implies board.run(
        #[trigger] steps.take(k),
    ).strays.is_empty() by {
        if k == 0 {
            assert(steps.take(0) =~= Seq::<Command>::empty());
        } else {
            assert(steps.take(k) =~= steps);
        }
    }
}

/// After `on` or `off` the light shows what was asked for and no task
/// toggles it, whatever it did before; nothing else on the board changes,
/// and the board still agrees with the register.
pub proof fn law_set_wins(board: Board, blinking: Map<u8, u64>, led: u8, state: LedState)
    requires
        board.agrees(blinking),
    ensures
        board.run(set_steps(blinking, led, state)) == (Board {
            levels: board.levels.insert(pin_of(led), state),
            tasks: blinking.remove(led),
            ..board
        }),
        board.run(set_steps(blinking, led, state)).agrees(blinking.remove(led)),
        board.run(set_steps(blinking, led, state)).shows(led, state),
        tidy(board, set_steps(blinking, led, state)),
{
    let cancel = cancel_steps(blinking, led);
    let write = seq![write_step(led, state)];
    lemma_cancel(board, blinking, led);
    lemma_run_push(board, cancel, write_step(led, state));
    let stopped = board.run(cancel);
    lemma_run_one(stopped, write_step(led, state));
    assert(tidy(stopped, write)) by {
        assert forall|k: int| 0 <= k <= write.len() implies stopped.run(
            #[trigger] write.take(k),
        ).strays.is_empty() by {
            if k == 0 {
                assert(write.take(0) =~= Seq::<Command>::empty());
            } else {
                assert(write.take(k) =~= write);
            }
        }
    }
    lemma_tidy_concat(board, cancel, write);
    assert(cancel + write =~= set_steps(blinking, led, state));
}

/// After `blink` exactly the new task toggles the light: a task that
/// toggled it before is aborted before the new one starts, so the light
/// never has two. The levels of the lines are not touched, and the board
/// still agrees with the register.
pub proof fn law_blink_replaces(board: Board, blinking: Map<u8, u64>, led: u8, period_ms: u64)
    requires
        board.agrees(blinking),
    ensures
        board.run(blink_steps(blinking, led, period_ms)) == (Board {
            tasks: blinking.insert(led, period_ms),
            ..board
        }),
        board.run(blink_steps(blinking, led, period_ms)).agrees(blinking.insert(led, period_ms)),
        tidy(board, blink_steps(blinking, led, period_ms)),
{
    let cancel = cancel_steps(blinking, led);
    let start = seq![blink_step(led, period_ms)];
    lemma_cancel(board, blinking, led);
    lemma_run_push(board, cancel, blink_step(led, period_ms));
    let stopped = board.run(cancel);
    lemma_run_one(stopped, blink_step(led, period_ms));
    assert(blinking.remove(led).insert(led, period_ms) =~= blinking.insert(led, period_ms));
    assert(tidy(stopped, start)) by {
        assert forall|k: int| 0 <= k <= start.len() implies stopped.run(
            #[trigger] start.take(k),
        ).strays.is_empty() by {
            if k == 0 {
                assert(start.take(0) =~= Seq::<Command>::empty());
            } else {
                assert(start.take(k) =~= start);
            }
        }
    }
    lemma_tidy_concat(board, cancel, start);
    assert(cancel + start =~= blink_steps(blinking, led, period_ms));
}

/// `blink` followed by `off` leaves no task for the light, on the register
/// and on the board, and the line of the light at level 0.
pub proof fn law_off_after_blink(board: Board, blinking: Map<u8, u64>, led: u8, period_ms: u64)
    requires
        board.agrees(blinking),
        valid_led(led),
        period_ms > 0,
    ensures
        ({
            let blinked = blinking.insert(led, period_ms);
            let after = board.run(blink_steps(blinking, led, period_ms)).run(
                set_steps(blinked, led, LedState::Off),
            );
            &&& !blinked.remove(led).contains_key(led)
            &&& after.agrees(blinked.remove(led))
            &&& after.shows(led, LedState::Off)
        }),
{
    let blinked = blinking.insert(led, period_ms);
    law_blink_replaces(board, blinking, led, period_ms);
    law_set_wins(board.run(blink_steps(blinking, led, period_ms)), blinked, led, LedState::Off);
}

/// `blink` followed by `blink` on the same light leaves one task for it,
/// which ticks at the second period, and at no point of the two operations
/// do two tasks toggle one light.
pub proof fn law_blink_twice(
    board: Board,
    blinking: Map<u8, u64>,
    led: u8,
    first_ms: u64,
    second_ms: u64,
)
    requires
        board.agrees(blinking),
        valid_led(led),
        first_ms > 0,
        second_ms > 0,
    ensures
        ({
            let once = blinking.insert(led, first_ms);
            let twice = once.insert(led, second_ms);
            let steps = blink_steps(blinking, led, first_ms) + blink_steps(once, led, second_ms);
            &&& twice.contains_key(led) && twice[led] == second_ms
            &&& board.run(steps).agrees(twice)
            &&& board.run(steps).tasks[led] == second_ms
            &&& tidy(board, steps)
        }),
{
    let once = blinking.insert(led, first_ms);
    let first = blink_steps(blinking, led, first_ms);
    let second = blink_steps(once, led, second_ms);
    law_blink_replaces(board, blinking, led, first_ms);
    law_blink_replaces(board.run(first), once, led, second_ms);
    lemma_run_concat(board, first, second);
    lemma_tidy_concat(board, first, second);
}

/// Cancelling every registered task of the lights 1 to `upto` takes those
/// tasks off the board and touches nothing else.
pub proof fn lemma_cancel_all(board: Board, blinking: Map<u8, u64>, upto: nat)
    requires
        board.agrees(blinking),
        upto <= u8::MAX,
    ensures
        board.run(cancel_all_steps(blinking, upto)) == (Board {
            tasks: blinking.remove_keys(Set::new(|led: u8| 1 <= led <= upto)),
            ..board
        }),
        tidy(board, cancel_all_steps(blinking, upto)),
    decreases upto,
{
    if upto == 0 {
        assert(blinking.remove_keys(Set::new(|led: u8| 1 <= led <= 0)) =~= blinking);
        assert forall|k: int| 0 <= k <= 0 implies board.run(
            #[trigger] Seq::<Command>::empty().take(k),
        ).strays.is_empty() by {
            assert(Seq::<Command>::empty().take(k) =~= Seq::<Command>::empty());
        }
    } else {
        let before = cancel_all_steps(blinking, (upto - 1) as nat);
        let left = blinking.remove_keys(Set::new(|led: u8| 1 <= led <= upto - 1));
        let last = cancel_steps(blinking, upto as u8);
        lemma_cancel_all(board, blinking, (upto - 1) as nat);
        lemma_run_concat(board, before, last);
        assert(last =~= cancel_steps(left, upto as u8));
        lemma_cancel(board.run(before), left, upto as u8);
        assert(left.remove(upto as u8) =~= blinking.remove_keys(
            Set::new(|led: u8| 1 <= led <= upto),
        ));
        lemma_tidy_concat(board, before, last);
    }
}

/// Writing `state` to the lights 1 to `count` sets their lines and touches
/// nothing else.
pub proof fn lemma_write_all(board: Board, count: nat, state: LedState)
    requires
        count <= LED_COUNT,
    ensures
        board.run(write_all_steps(count, state)) == (Board {
            levels: board.levels.union_prefer_right(
                Map::new(|pin: u8| 4 <= pin <= count + 3, |pin: u8| state),
            ),
            ..board
        }),
    decreases count,
{
    if count == 0 {
        assert(write_all_steps(0, state) =~= Seq::<Command>::empty());
        assert(board.levels.union_prefer_right(
            Map::new(|pin: u8| 4 <= pin <= 0 + 3, |pin: u8| state),
        ) =~= board.levels);
    } else {
        let before = write_all_steps((count - 1) as nat, state);
        let last = write_step(count as u8, state);
        lemma_write_all(board, (count - 1) as nat, state);
        assert(write_all_steps(count, state) =~= before.push(last));
        lemma_run_push(board, before, last);
        assert(board.levels.union_prefer_right(
            Map::new(|pin: u8| 4 <= pin <= (count - 1) + 3, |pin: u8| state),
        ).insert(pin_of(count as u8), state) =~= board.levels.union_prefer_right(
            Map::new(|pin: u8| 4 <= pin <= count + 3, |pin: u8| state),
        ));
    }
}

/// `all_off` that came as far as its first `written` writes has aborted
/// every task, has put out the lights 1 to `written` and has left the other
/// lines as they were. The first write that fails ends the operation, so
/// this is the board that a failure on light `written + 1` leaves behind.
pub proof fn law_all_off_as_far_as(board: Board, blinking: Map<u8, u64>, written: nat)
    requires
        board.agrees(blinking),
        well_formed(blinking),
        written <= LED_COUNT,
    ensures
        ({
            let cancelled = cancel_all_steps(blinking, LED_COUNT as nat).len();
            let after = board.run(all_off_steps(blinking).take((cancelled + written) as int));
            &&& after.agrees(Map::empty())
            &&& forall|led: u8| 1 <= led <= written ==> #[trigger] after.shows(led, LedState::Off)
            &&& forall|led: u8|
                written < led <= LED_COUNT ==> #[trigger] after.line(led) == board.line(led)
        }),
{
    let cancels = cancel_all_steps(blinking, LED_COUNT as nat);
    let writes = write_all_steps(written, LedState::Off);
    assert(all_off_steps(blinking).take((cancels.len() + written) as int) =~= cancels + writes);
    lemma_run_concat(board, cancels, writes);
    lemma_cancel_all(board, blinking, LED_COUNT as nat);
    lemma_write_all(board.run(cancels), written, LedState::Off);
    assert(blinking.remove_keys(Set::new(|led: u8| 1 <= led <= LED_COUNT as nat)) =~= Map::<
        u8,
        u64,
    >::empty());
    let after = board.run(cancels + writes);
    assert forall|led: u8| 1 <= led <= written implies #[trigger] after.shows(
        led,
        LedState::Off,
    ) by {
        assert(after.levels.contains_key(pin_of(led)));
    }
    assert forall|led: u8| written < led <= LED_COUNT implies #[trigger] after.line(led)
        == board.line(led) by {
        assert(after.levels.contains_key(pin_of(led)) == board.levels.contains_key(pin_of(led)));
    }
}

/// `all_off` leaves no blink task, on the register and on the board, and
/// every one of the 24 lines at level 0, whatever ran and whatever was lit
/// before.
pub proof fn law_all_off(board: Board, blinking: Map<u8, u64>)
    requires
        board.agrees(blinking),
        well_formed(blinking),
    ensures
        board.run(all_off_steps(blinking)).agrees(Map::empty()),
        forall|led: u8|
            valid_led(led) ==> #[trigger] board.run(all_off_steps(blinking)).shows(
                led,
                LedState::Off,
            ),
        tidy(board, all_off_steps(blinking)),
{
    let steps = all_off_steps(blinking);
    let cancels = cancel_all_steps(blinking, LED_COUNT as nat);
    law_all_off_as_far_as(board, blinking, LED_COUNT as nat);
    assert(steps.take((cancels.len() + LED_COUNT) as int) =~= steps);
    assert forall|k: int| 0 <= k <= steps.len() implies board.run(
        #[trigger] steps.take(k),
    ).strays.is_empty() by {
        lemma_cancel_all(board, blinking, LED_COUNT as nat);
        if k <= cancels.len() {
            assert(steps.take(k) =~= cancels.take(k));
        } else {
            let written = (k - cancels.len()) as nat;
            law_all_off_as_far_as(board, blinking, written);
        }
    }
}

/// Start-up of a blank board requests the lines of all 24 lights as outputs
/// at level 0 and starts no task.
pub proof fn law_startup()
    ensures
        Board::blank().run(startup_steps()).ready(),
        Board::blank().run(startup_steps()).agrees(Map::empty()),
        forall|led: u8|
            valid_led(led) ==> #[trigger] Board::blank().run(startup_steps()).shows(
                led,
                LedState::Off,
            ),
{
    lemma_open(LED_COUNT as nat);
    let after = Board::blank().run(startup_steps());
    assert forall|led: u8| valid_led(led) implies #[trigger] after.shows(led, LedState::Off) by {
        assert(after.levels.contains_key(pin_of(led)));
    }
}

/// Bringing up the lights 1 to `count` requests their lines at level 0.
proof fn lemma_open(count: nat)
    requires
        count <= LED_COUNT,
    ensures
        Board::blank().run(open_steps(count)) == (Board {
            levels: Map::new(|pin: u8| 4 <= pin <= count + 3, |pin: u8| LedState::Off),
            ..Board::blank()
        }),
    decreases count,
{
    if count == 0 {
        assert(open_steps(0) =~= seq![Command::OpenChip]);
        lemma_run_one(Board::blank(), Command::OpenChip);
        assert(Map::new(|pin: u8| 4 <= pin <= 0 + 3, |pin: u8| LedState::Off) =~= Map::<
            u8,
            LedState,
        >::empty());
    } else {
        let led = count as u8;
        let before = open_steps((count - 1) as nat);
        let get = Command::GetLine { led, pin: pin_of(led) };
        let request = Command::RequestOutput { led, pin: pin_of(led), initial: LedState::Off };
        lemma_open((count - 1) as nat);
        assert(open_steps(count) =~= before.push(get).push(request));
        lemma_run_push(Board::blank(), before, get);
        lemma_run_push(Board::blank(), before.push(get), request);
        assert(Map::new(|pin: u8| 4 <= pin <= (count - 1) + 3, |pin: u8| LedState::Off).insert(
            pin_of(led),
            LedState::Off,
        ) =~= Map::new(|pin: u8| 4 <= pin <= count + 3, |pin: u8| LedState::Off));
    }
}

/// Two commands for different lights and different lines may be performed in
/// either order: the board is the same afterwards.
pub proof fn law_commands_commute(board: Board, first: Command, second: Command)
    requires
        first.apart(second),
    ensures
        board.perform(first).perform(second) == board.perform(second).perform(first),
{
    let one = board.perform(first).perform(second);
    let other = board.perform(second).perform(first);
    assert(one.levels =~= other.levels);
    assert(one.tasks =~= other.tasks);
    assert(one.strays =~= other.strays);
}

/// `on` and `off` for two different lights touch different lines and
/// different tasks: whichever of the two operations comes first, both lights
/// end up as asked and the board and the register are the same.
pub proof fn law_lights_are_independent(
    board: Board,
    blinking: Map<u8, u64>,
    one: u8,
    one_state: LedState,
    other: u8,
    other_state: LedState,
)
    requires
        board.agrees(blinking),
        valid_led(one),
        valid_led(other),
        one != other,
    ensures
        ({
            let one_first = board.run(set_steps(blinking, one, one_state)).run(
                set_steps(blinking.remove(one), other, other_state),
            );
            let other_first = board.run(set_steps(blinking, other, other_state)).run(
                set_steps(blinking.remove(other), one, one_state),
            );
            &&& one_first == other_first
            &&& blinking.remove(one).remove(other) == blinking.remove(other).remove(one)
            &&& one_first.shows(one, one_state)
            &&& one_first.shows(other, other_state)
        }),
        forall|i: int, j: int|
            0 <= i < set_steps(blinking, one, one_state).len() && 0 <= j < set_steps(
                blinking.remove(one),
                other,
                other_state,
            ).len() ==> {
                let a = #[trigger] set_steps(blinking, one, one_state)[i];
                let b = #[trigger] set_steps(blinking.remove(one), other, other_state)[j];
                a.apart(b)
            },
{
    law_set_wins(board, blinking, one, one_state);
    law_set_wins(
        board.run(set_steps(blinking, one, one_state)),
        blinking.remove(one),
        other,
        other_state,
    );
    law_set_wins(board, blinking, other, other_state);
    law_set_wins(
        board.run(set_steps(blinking, other, other_state)),
        blinking.remove(other),
        one,
        one_state,
    );
    let one_first = board.run(set_steps(blinking, one, one_state)).run(
        set_steps(blinking.remove(one), other, other_state),
    );
    let other_first = board.run(set_steps(blinking, other, other_state)).run(
        set_steps(blinking.remove(other), one, one_state),
    );
    assert(blinking.remove(one).remove(other) =~= blinking.remove(other).remove(one));
    assert(one_first.levels =~= other_first.levels);
}

/// Every command that stops blinking is a task command.
proof fn lemma_cancel_all_are_tasks(blinking: Map<u8, u64>, upto: nat)
    ensures
        forall|i: int|
            0 <= i < cancel_all_steps(blinking, upto).len() ==> (#[trigger] cancel_all_steps(
                blinking,
                upto,
            )[i]).is_task(),
    decreases upto,
{
    if upto > 0 {
        let before = cancel_all_steps(blinking, (upto - 1) as nat);
        let steps = cancel_all_steps(blinking, upto);
        lemma_cancel_all_are_tasks(blinking, (upto - 1) as nat);
        assert forall|i: int| 0 <= i < steps.len() implies (#[trigger] steps[i]).is_task() by {
            if i < before.len() {
                assert(steps[i] == before[i]);
            }
        }
    }
}

/// In every operation the task commands come before the line commands.
pub proof fn law_plans_are_staged(
    blinking: Map<u8, u64>,
    led: u8,
    state: LedState,
    period_ms: u64,
)
    ensures
        staged(set_steps(blinking, led, state)),
        staged(blink_steps(blinking, led, period_ms)),
        staged(all_off_steps(blinking)),
        staged(startup_steps()),
{
    lemma_cancel_all_are_tasks(blinking, LED_COUNT as nat);
}

} // verus!
