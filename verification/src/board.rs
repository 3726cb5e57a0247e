//! A model of what the driver's side looks like once it has performed the
//! commands it was given: the level of each line and the blink tasks that
//! run. The controller's contracts say which commands an operation
//! consists of; this module says what those commands do.

use crate::command::Command;
use crate::leds::{pin_of, valid_led, LedState};
use vstd::prelude::*;

verus! {

/// The driver's side of the board.
pub struct Board {
    /// The lines that were requested as outputs, by pin, each with the
    /// level that was last written to it by a command.
    pub levels: Map<u8, LedState>,
    /// The blink tasks whose handles the driver keeps, by light, each with
    /// its period in milliseconds.
    pub tasks: Map<u8, u64>,
    /// The lights that are toggled by a task whose handle was overwritten.
    /// Such a task still runs and can no longer be aborted.
    pub strays: Set<u8>,
}

impl Board {
    /// The board before anything was done to it.
    pub open spec fn blank() -> Board {
        Board { levels: Map::empty(), tasks: Map::empty(), strays: Set::empty() }
    }

    /// The board after the driver has performed `command`.
    pub open spec fn perform(self, command: Command) -> Board {
        match command {
            Command::OpenChip => self,
            Command::GetLine { led, pin } => self,
            Command::RequestOutput { led, pin, initial } => Board {
                levels: self.levels.insert(pin, initial),
                ..self
            },
            Command::SetValue { led, pin, state } => Board {
                levels: self.levels.insert(pin, state),
                ..self
            },
            Command::StartBlink { led, pin, period_ms } => Board {
                tasks: self.tasks.insert(led, period_ms),
                strays: if self.tasks.contains_key(led) {
                    self.strays.insert(led)
                } else {
                    self.strays
                },
                ..self
            },
            Command::CancelBlink { led } => Board { tasks: self.tasks.remove(led), ..self },
        }
    }

    /// The board after the driver has performed `steps`, first to last.
    pub open spec fn run(self, steps: Seq<Command>) -> Board
        decreases steps.len(),
    {
        if steps.len() == 0 {
            self
        } else {
            self.run(steps.drop_last()).perform(steps.last())
        }
    }

    /// Whether the board runs the tasks of the register `blinking` and no
    /// others.
    pub open spec fn agrees(self, blinking: Map<u8, u64>) -> bool {
        self.tasks == blinking && self.strays.is_empty()
    }

    /// Whether no task toggles light `led`.
    pub open spec fn quiet(self, led: u8) -> bool {
        !self.tasks.contains_key(led) && !self.strays.contains(led)
    }

    /// The level that was last written to the line of light `led`, or
    /// `None` where the line was not requested.
    pub open spec fn line(self, led: u8) -> Option<LedState> {
        if self.levels.contains_key(pin_of(led)) {
            Some(self.levels[pin_of(led)])
        } else {
            None
        }
    }

    /// Whether the line of light `led` is an output at level `state` and no
    /// task toggles it.
    pub open spec fn shows(self, led: u8, state: LedState) -> bool {
        self.quiet(led) && self.line(led) == Some(state)
    }

    /// Whether the lines of all lights were requested.
    pub open spec fn ready(self) -> bool {
        forall|led: u8| valid_led(led) ==> (#[trigger] self.line(led)) is Some
    }
}

/// Performing `steps` and then `command` is performing `steps.push(command)`.
pub proof fn lemma_run_push(board: Board, steps: Seq<Command>, command: Command)
    ensures
        board.run(steps.push(command)) == board.run(steps).perform(command),
{
    assert(steps.push(command).drop_last() =~= steps);
}

/// Performing `first` and then `second` is performing `first + second`.
pub proof fn lemma_run_concat(board: Board, first: Seq<Command>, second: Seq<Command>)
    ensures
        board.run(first + second) == board.run(first).run(second),
    decreases second.len(),
{
    if second.len() == 0 {
        assert(first + second =~= first);
    } else {
        lemma_run_concat(board, first, second.drop_last());
        assert((first + second).drop_last() =~= first + second.drop_last());
    }
}

/// A single command is performed by performing it.
pub proof fn lemma_run_one(board: Board, command: Command)
    ensures
        board.run(seq![command]) == board.perform(command),
{
    assert(seq![command].drop_last() =~= Seq::<Command>::empty());
    assert(board.run(Seq::<Command>::empty()) == board);
}

} // verus!
