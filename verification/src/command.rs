//! What the controller asks of the driver that owns the GPIO lines and the
//! blink tasks, one command at a time.

use crate::error::{TrainError, TrainErrorView};
use crate::leds::{pin_of, LedState, LED_COUNT};
use crate::text::{decimal, push_decimal};
use vstd::prelude::*;

verus! {

/// The path of the GPIO chip that `OpenChip` opens.
pub const CHIP_PATH: &'static str = "/dev/gpiochip0";

/// The consumer label under which `RequestOutput` requests a line.
pub const CONSUMER: &'static str = "train-led";

/// One request to the driver.
///
/// The driver performs a command and reports whether it went through. The
/// line commands touch the hardware and may fail; the task commands start or
/// abort a background task and do not wait for it.
#[derive(Debug, Clone, Copy, PartialEq, Eq, Structural)]
pub enum Command {
    /// Open the GPIO chip.
    OpenChip,
    /// Look up the line of `pin` on the chip.
    GetLine { led: u8, pin: u8 },
    /// Request the line of `pin` as an output that starts at `initial`.
    RequestOutput { led: u8, pin: u8, initial: LedState },
    /// Take the lock of the line, write `state` to it and release the lock.
    SetValue { led: u8, pin: u8, state: LedState },
    /// Start the task that toggles the line every `period_ms` milliseconds
    /// and keep its handle under `led`.
    StartBlink { led: u8, pin: u8, period_ms: u64 },
    /// Abort the task whose handle is kept under `led` and drop the handle.
    CancelBlink { led: u8 },
}

impl Command {
    /// Whether the command starts or aborts a blink task.
    pub open spec fn is_task(self) -> bool {
        self is StartBlink || self is CancelBlink
    }

    /// The light that the command is about.
    pub open spec fn light(self) -> Option<u8> {
        match self {
            Command::OpenChip => None,
            Command::GetLine { led, pin } => Some(led),
            Command::RequestOutput { led, pin, initial } => Some(led),
            Command::SetValue { led, pin, state } => Some(led),
            Command::StartBlink { led, pin, period_ms } => Some(led),
            Command::CancelBlink { led } => Some(led),
        }
    }

    /// The pin of the line that the command touches.
    pub open spec fn line(self) -> Option<u8> {
        match self {
            Command::OpenChip => None,
            Command::GetLine { led, pin } => Some(pin),
            Command::RequestOutput { led, pin, initial } => Some(pin),
            Command::SetValue { led, pin, state } => Some(pin),
            Command::StartBlink { led, pin, period_ms } => Some(pin),
            Command::CancelBlink { led } => None,
        }
    }

    /// Whether the two commands are about different lights and touch
    /// different lines.
    pub open spec fn apart(self, other: Command) -> bool {
        &&& self.light() is None || other.light() is None || self.light() != other.light()
        &&& self.line() is None || other.line() is None || self.line() != other.line()
    }

    /// The error that the failure of this command is reported as, `cause`
    /// being the driver's description of what happened.
    pub open spec fn failure(self, cause: Seq<char>) -> TrainErrorView {
        match self {
            Command::OpenChip => TrainErrorView::GPIO("Failed to open GPIO chip: "@ + cause),
            Command::GetLine { led, pin } => TrainErrorView::GPIO(
                "Failed to get GPIO line "@ + decimal(pin as nat) + " for LED "@ + decimal(
                    led as nat,
                ) + ": "@ + cause,
            ),
            Command::RequestOutput { led, pin, initial } => TrainErrorView::GPIO(
                "Failed to request GPIO line "@ + decimal(pin as nat) + " for LED "@ + decimal(
                    led as nat,
                ) + ": "@ + cause,
            ),
            Command::SetValue { led, pin, state } => TrainErrorView::GPIO(
                (if state == LedState::On {
                    "Failed to turn on LED "@
                } else {
                    "Failed to turn off LED "@
                }) + decimal(led as nat) + ": "@ + cause,
            ),
            Command::StartBlink { led, pin, period_ms } => TrainErrorView::Hardware(cause),
            Command::CancelBlink { led } => TrainErrorView::Hardware(cause),
        }
    }

    /// Whether the command starts or aborts a blink task.
    pub fn starts_or_cancels(&self) -> (b: bool)
        ensures
            b == self.is_task(),
    {
        match self {
            Command::StartBlink { .. } => true,
            Command::CancelBlink { .. } => true,
            _ => false,
        }
    }

    /// The error that the failure of this command is reported as.
    pub fn fail(&self, cause: &str) -> (e: TrainError)
        ensures
            e@ == self.failure(cause@),
    {
        match self {
            Command::OpenChip => {
                TrainError::GPIO(String::from_str("Failed to open GPIO chip: ").concat(cause))
            },
            Command::GetLine { led, pin } => {
                let mut detail = String::from_str("Failed to get GPIO line ");
                push_decimal(&mut detail, *pin as u64);
                detail.append(" for LED ");
                push_decimal(&mut detail, *led as u64);
                detail.append(": ");
                detail.append(cause);
                TrainError::GPIO(detail)
            },
            Command::RequestOutput { led, pin, .. } => {
                let mut detail = String::from_str("Failed to request GPIO line ");
                push_decimal(&mut detail, *pin as u64);
                detail.append(" for LED ");
                push_decimal(&mut detail, *led as u64);
                detail.append(": ");
                detail.append(cause);
                TrainError::GPIO(detail)
            },
            Command::SetValue { led, state, .. } => {
                let mut detail = match state {
                    LedState::On => String::from_str("Failed to turn on LED "),
                    LedState::Off => String::from_str("Failed to turn off LED "),
                };
                push_decimal(&mut detail, *led as u64);
                detail.append(": ");
                detail.append(cause);
                TrainError::GPIO(detail)
            },
            Command::StartBlink { .. } => TrainError::Hardware(String::from_str(cause)),
            Command::CancelBlink { .. } => TrainError::Hardware(String::from_str(cause)),
        }
    }
}

/// The write that sets light `led` to `state`.
pub open spec fn write_step(led: u8, state: LedState) -> Command {
    Command::SetValue { led, pin: pin_of(led), state }
}

/// The command that starts toggling light `led` every `period_ms`
/// milliseconds.
pub open spec fn blink_step(led: u8, period_ms: u64) -> Command {
    Command::StartBlink { led, pin: pin_of(led), period_ms }
}

/// The commands that stop the blinking of `led`: one cancellation where a
/// task is registered for it in `blinking`, nothing where none is.
pub open spec fn cancel_steps(blinking: Map<u8, u64>, led: u8) -> Seq<Command> {
    if blinking.contains_key(led) {
        seq![Command::CancelBlink { led }]
    } else {
        Seq::empty()
    }
}

/// The commands that set light `led` to `state`: its blinking is stopped
/// first, then the line is written.
pub open spec fn set_steps(blinking: Map<u8, u64>, led: u8, state: LedState) -> Seq<Command> {
    cancel_steps(blinking, led).push(write_step(led, state))
}

/// The commands that make light `led` blink: a task that is already
/// registered for it is cancelled first, then the new one is started.
pub open spec fn blink_steps(blinking: Map<u8, u64>, led: u8, period_ms: u64) -> Seq<Command> {
    cancel_steps(blinking, led).push(blink_step(led, period_ms))
}

/// The cancellations of all tasks registered in `blinking` for the lights 1
/// to `upto`, in ascending order of the lights.
pub open spec fn cancel_all_steps(blinking: Map<u8, u64>, upto: nat) -> Seq<Command>
    decreases upto,
{
    if upto == 0 {
        Seq::empty()
    } else {
        cancel_all_steps(blinking, (upto - 1) as nat) + cancel_steps(blinking, upto as u8)
    }
}

/// One write of `state` to each of the lights 1 to `count`, in ascending
/// order.
pub open spec fn write_all_steps(count: nat, state: LedState) -> Seq<Command> {
    Seq::new(count, |i: int| write_step((i + 1) as u8, state))
}

/// The commands that put the whole board out: every registered task is
/// cancelled, then every line is written low.
pub open spec fn all_off_steps(blinking: Map<u8, u64>) -> Seq<Command> {
    cancel_all_steps(blinking, LED_COUNT as nat) + write_all_steps(LED_COUNT as nat, LedState::Off)
}

/// The commands that bring the board up for the lights 1 to `count`: the
/// chip is opened, then for each light in ascending order its line is looked
/// up and requested as an output at level 0.
pub open spec fn open_steps(count: nat) -> Seq<Command> {
    Seq::new(
        2 * count + 1,
        |i: int|
            if i == 0 {
                Command::OpenChip
            } else if i % 2 == 1 {
                Command::GetLine { led: ((i + 1) / 2) as u8, pin: pin_of(((i + 1) / 2) as u8) }
            } else {
                Command::RequestOutput {
                    led: (i / 2) as u8,
                    pin: pin_of((i / 2) as u8),
                    initial: LedState::Off,
                }
            },
    )
}

/// The commands that bring the whole board up.
pub open spec fn startup_steps() -> Seq<Command> {
    open_steps(LED_COUNT as nat)
}

/// Whether the task commands of `steps` all come before its line commands.
/// A driver may then start and abort tasks while it holds the controller,
/// and touch the lines after it has let go of it.
pub open spec fn staged(steps: Seq<Command>) -> bool {
    forall|i: int, j: int|
        0 <= i < j < steps.len() && (#[trigger] steps[j]).is_task() ==> (
        #[trigger] steps[i]).is_task()
}

} // verus!
