//! The lights of the board: their numbers, their pins and their colour groups.

use crate::command::{
    all_off_steps, blink_steps, cancel_all_steps, cancel_steps, open_steps, set_steps,
    startup_steps, write_all_steps, Command,
};
use crate::error::{TrainError, TrainErrorView};
use crate::operation::Operation;
use crate::text::{decimal, push_decimal};
use std::collections::HashMap;
use vstd::prelude::*;

verus! {

/// Number of lights on the board. They are numbered from 1.
pub const LED_COUNT: u8 = 24;

/// Distance from a light's number to the number of its GPIO pin.
pub const PIN_OFFSET: u8 = 3;

/// What a light is set to.
#[derive(Debug, Clone, Copy, PartialEq, Eq, Structural)]
pub enum LedState {
    On,
    Off,
}

impl LedState {
    /// The logical level of the line: 1 lights the lamp, 0 puts it out.
    pub open spec fn level(self) -> u8 {
        match self {
            LedState::On => 1,
            LedState::Off => 0,
        }
    }

    /// The logical level that is written to the line.
    pub fn value(self) -> (v: u8)
        ensures
            v == self.level(),
    {
        match self {
            LedState::On => 1,
            LedState::Off => 0,
        }
    }
}

/// A colour group: a fixed run of consecutive lights.
#[derive(Debug, Clone, Copy, PartialEq, Eq, Structural)]
pub enum LedSubset {
    Green,
    Amber,
    Red,
}

/// The green lights, 1 to 6.
pub const GREEN_LEDS: LedSubset = LedSubset::Green;

/// The amber lights, 7 to 12.
pub const AMBER_LEDS: LedSubset = LedSubset::Amber;

/// The red lights, 13 to 24.
pub const RED_LEDS: LedSubset = LedSubset::Red;

impl LedSubset {
    /// The first light of the group.
    pub open spec fn first(self) -> u8 {
        match self {
            LedSubset::Green => 1,
            LedSubset::Amber => 7,
            LedSubset::Red => 13,
        }
    }

    /// The last light of the group.
    pub open spec fn last(self) -> u8 {
        match self {
            LedSubset::Green => 6,
            LedSubset::Amber => 12,
            LedSubset::Red => 24,
        }
    }

    /// How many lights the group has.
    pub open spec fn size(self) -> int {
        self.last() - self.first() + 1
    }

    /// Whether `led` belongs to the group.
    pub open spec fn has(self, led: u8) -> bool {
        self.first() <= led <= self.last()
    }

    /// Whether the group has a light at `position`, counted from 1.
    pub open spec fn has_position(self, position: u8) -> bool {
        1 <= position <= self.size()
    }

    /// The light at `position` of the group, counted from 1.
    pub open spec fn led_at(self, position: u8) -> u8
        recommends
            self.has_position(position),
    {
        (self.first() + position - 1) as u8
    }

    /// The first light of the group.
    pub fn start(self) -> (led: u8)
        ensures
            led == self.first(),
    {
        match self {
            LedSubset::Green => 1,
            LedSubset::Amber => 7,
            LedSubset::Red => 13,
        }
    }

    /// The last light of the group.
    pub fn end(self) -> (led: u8)
        ensures
            led == self.last(),
    {
        match self {
            LedSubset::Green => 6,
            LedSubset::Amber => 12,
            LedSubset::Red => 24,
        }
    }
}

/// Whether `led` is the number of a light of the board.
pub open spec fn valid_led(led: u8) -> bool {
    1 <= led <= LED_COUNT
}

/// The GPIO pin that drives light `led`.
pub open spec fn pin_of(led: u8) -> u8
    recommends
        valid_led(led),
{
    (led + PIN_OFFSET) as u8
}

/// What `led_to_gpio_pin` answers to a number that names no light.
pub open spec fn led_out_of_range(led: u8) -> TrainErrorView {
    TrainErrorView::InvalidParameter(
        "LED number must be between 1 and "@ + decimal(LED_COUNT as nat) + ", got "@ + decimal(
            led as nat,
        ),
    )
}

/// What a light operation answers to a number that names no light.
pub open spec fn led_not_found(led: u8) -> TrainErrorView {
    TrainErrorView::InvalidParameter("LED "@ + decimal(led as nat) + " not found"@)
}

/// What the resolver answers to a position that a group of `size` lights
/// does not have.
pub open spec fn position_out_of_range(position: u8, size: int) -> TrainErrorView {
    TrainErrorView::InvalidParameter(
        "Position "@ + decimal(position as nat) + " is out of range for subset (1-"@ + decimal(
            size as nat,
        ) + ")"@,
    )
}

/// What `blink` answers to a period of zero.
pub open spec fn period_is_zero() -> TrainErrorView {
    TrainErrorView::InvalidParameter("Blink frequency must be greater than 0"@)
}

/// What a controller may have registered: blink tasks for lights of the
/// board only, each with a period above zero.
pub open spec fn well_formed(blinking: Map<u8, u64>) -> bool {
    forall|led: u8| #[trigger]
        blinking.contains_key(led) ==> valid_led(led) && blinking[led] > 0
}

/// Maps a light (1 to 24) to its GPIO pin (4 to 27).
pub fn led_to_gpio_pin(led: u8) -> (r: Result<u8, TrainError>)
    ensures
        match r {
            Ok(pin) => valid_led(led) && pin == pin_of(led),
            Err(e) => !valid_led(led) && e@ == led_out_of_range(led),
        },
{
    if led < 1 || led > LED_COUNT {
        let mut detail = String::from_str("LED number must be between 1 and ");
        push_decimal(&mut detail, LED_COUNT as u64);
        detail.append(", got ");
        push_decimal(&mut detail, led as u64);
        return Err(TrainError::InvalidParameter(detail));
    }
    Ok(led + PIN_OFFSET)
}

/// The error for a light number that the controller has no line for.
pub(crate) fn not_found(led: u8) -> (e: TrainError)
    ensures
        e@ == led_not_found(led),
{
    let mut detail = String::from_str("LED ");
    push_decimal(&mut detail, led as u64);
    detail.append(" not found");
    TrainError::InvalidParameter(detail)
}

/// The toggle of one blink task. The task calls `tick` once per period and
/// writes what it gets to the line of its light; where the timer has fallen
/// behind, the ticks that were missed are left out, not made up for. A
/// write that fails is dropped and the task goes on ticking.
#[derive(Debug)]
pub struct Blinker {
    lit: bool,
}

impl Blinker {
    /// Whether the last tick lit the light.
    pub closed spec fn lit(&self) -> bool {
        self.lit
    }

    /// The toggle of a task that has not ticked yet.
    pub fn new() -> (blinker: Blinker)
        ensures
            !blinker.lit(),
    {
        Blinker { lit: false }
    }

    /// Flips the toggle and says what to write: the first tick lights the
    /// light, the second puts it out, and so on.
    pub fn tick(&mut self) -> (state: LedState)
        ensures
            final(self).lit() == !old(self).lit(),
            state == (if old(self).lit() {
                LedState::Off
            } else {
                LedState::On
            }),
    {
        self.lit = !self.lit;
        if self.lit {
            LedState::On
        } else {
            LedState::Off
        }
    }
}

/// The controller of the 24 lights.
///
/// The controller decides; a driver acts. Each operation hands back the
/// commands that carry it out and brings the register of blink tasks up to
/// date at once, so that the next operation sees what this one leaves
/// behind. The controller keeps no record of whether a light is lit.
#[derive(Debug)]
pub struct LedController {
    /// The lights that have a blink task, each with the period of its task
    /// in milliseconds.
    blinking: HashMap<u8, u64>,
}

impl View for LedController {
    type V = Map<u8, u64>;

    /// The lights that blink, each with its period in milliseconds.
    closed spec fn view(&self) -> Map<u8, u64> {
        self.blinking@
    }
}

impl LedController {
    #[verifier::type_invariant]
    spec fn inv(self) -> bool {
        well_formed(self.blinking@)
    }

    /// The operation that brings the board up: it opens the chip and
    /// requests the lines of the lights 1 to 24, on the pins 4 to 27, as
    /// outputs at level 0.
    pub fn startup() -> (op: Operation)
        ensures
            op.fresh(startup_steps()),
            op.is_startup(),
    {
        let mut steps: Vec<Command> = Vec::new();
        steps.push(Command::OpenChip);
        assert(steps@ =~= open_steps(0));
        let mut led: u8 = 1;
        while led <= LED_COUNT
            invariant
                1 <= led <= LED_COUNT + 1,
                steps@ == open_steps((led - 1) as nat),
            decreases LED_COUNT + 1 - led,
        {
            let pin = led + PIN_OFFSET;
            steps.push(Command::GetLine { led, pin });
            steps.push(Command::RequestOutput { led, pin, initial: LedState::Off });
            assert(steps@ =~= open_steps(led as nat));
            led = led + 1;
        }
        Operation::startup(steps)
    }

    /// The controller of a board that `startup` has brought up. Start-up is
    /// all or nothing: where a command of it failed, that failure is handed
    /// on and no controller exists. An operation that is not over, or is not
    /// the start-up, is refused as `NotSupported`.
    pub fn new(startup: Operation) -> (r: Result<LedController, TrainError>)
        ensures
            match r {
                Ok(controller) => startup.is_startup() && startup.succeeded() && controller@
                    == Map::<u8, u64>::empty(),
                Err(e) => !(startup.is_startup() && startup.succeeded()) && e@ == (
                match startup.failure() {
                    Some(failure) => failure,
                    None => TrainErrorView::NotSupported,
                }),
            },
    {
        let opens_board = startup.opens_board();
        match startup.finish() {
            Err(e) => Err(e),
            Ok(_) => {
                if opens_board {
                    Ok(LedController { blinking: HashMap::new() })
                } else {
                    Err(TrainError::NotSupported)
                }
            },
        }
    }

    /// Moves the register out of the controller, to be changed and put
    /// back. The controller holds an empty one meanwhile.
    fn take_register(&mut self) -> (blinking: HashMap<u8, u64>)
        ensures
            blinking@ == old(self)@,
            final(self)@ == Map::<u8, u64>::empty(),
    {
        let mut blinking: HashMap<u8, u64> = HashMap::new();
        std::mem::swap(&mut self.blinking, &mut blinking);
        blinking
    }

    /// Stops the blinking of `led`: its task is taken off the register and
    /// its cancellation is added to `steps`. Nothing happens where no task
    /// is registered for `led`.
    fn cancel_blink(&mut self, led: u8, steps: &mut Vec<Command>)
        ensures
            final(self)@ == old(self)@.remove(led),
            final(steps)@ == old(steps)@ + cancel_steps(old(self)@, led),
    {
        broadcast use vstd::std_specs::hash::group_hash_axioms;

        proof {
            use_type_invariant(&*self);
        }
        let mut blinking = self.take_register();
        if blinking.remove(&led).is_some() {
            steps.push(Command::CancelBlink { led });
        }
        assert(steps@ =~= old(steps)@ + cancel_steps(old(self)@, led));
        self.blinking = blinking;
    }

    /// Sets light `led` to `state`, whatever it did before.
    fn set(&mut self, led: u8, state: LedState) -> (r: Result<Operation, TrainError>)
        ensures
            match r {
                Ok(op) => valid_led(led) && op.fresh(set_steps(old(self)@, led, state))
                    && final(self)@ == old(self)@.remove(led),
                Err(e) => !valid_led(led) && e@ == led_not_found(led)
                    && final(self)@ == old(self)@,
            },
            well_formed(final(self)@),
    {
        proof {
            use_type_invariant(&*self);
        }
        let mut steps: Vec<Command> = Vec::new();
        self.cancel_blink(led, &mut steps);
        proof {
            use_type_invariant(&*self);
        }
        if !self.is_valid_led(led) {
            assert(self@ =~= old(self)@);
            return Err(not_found(led));
        }
        steps.push(Command::SetValue { led, pin: led + PIN_OFFSET, state });
        assert(steps@ =~= set_steps(old(self)@, led, state));
        Ok(Operation::new(steps))
    }

    /// Turns light `led` on. A blink task of the light is cancelled first,
    /// so that the light stays on.
    pub fn on(&mut self, led: u8) -> (r: Result<Operation, TrainError>)
        ensures
            match r {
                Ok(op) => valid_led(led) && op.fresh(set_steps(old(self)@, led, LedState::On))
                    && final(self)@ == old(self)@.remove(led),
                Err(e) => !valid_led(led) && e@ == led_not_found(led)
                    && final(self)@ == old(self)@,
            },
            well_formed(final(self)@),
    {
        self.set(led, LedState::On)
    }

    /// Turns light `led` off. A blink task of the light is cancelled first,
    /// so that the light stays off.
    pub fn off(&mut self, led: u8) -> (r: Result<Operation, TrainError>)
        ensures
            match r {
                Ok(op) => valid_led(led) && op.fresh(set_steps(old(self)@, led, LedState::Off))
                    && final(self)@ == old(self)@.remove(led),
                Err(e) => !valid_led(led) && e@ == led_not_found(led)
                    && final(self)@ == old(self)@,
            },
            well_formed(final(self)@),
    {
        self.set(led, LedState::Off)
    }

    /// Makes light `led` toggle every `frequency_ms` milliseconds. A task
    /// that already toggles the light is cancelled first: the last request
    /// wins, and the light never has two tasks.
    pub fn blink(&mut self, led: u8, frequency_ms: u64) -> (r: Result<Operation, TrainError>)
        ensures
            match r {
                Ok(op) => frequency_ms > 0 && valid_led(led) && op.fresh(
                    blink_steps(old(self)@, led, frequency_ms),
                ) && final(self)@ == old(self)@.insert(led, frequency_ms),
                Err(e) => final(self)@ == old(self)@ && (if frequency_ms == 0 {
                    e@ == period_is_zero()
                } else {
                    !valid_led(led) && e@ == led_not_found(led)
                }),
            },
            well_formed(final(self)@),
    {
        broadcast use vstd::std_specs::hash::group_hash_axioms;

        proof {
            use_type_invariant(&*self);
        }
        if frequency_ms == 0 {
            return Err(
                TrainError::InvalidParameter(
                    String::from_str("Blink frequency must be greater than 0"),
                ),
            );
        }
        let mut steps: Vec<Command> = Vec::new();
        self.cancel_blink(led, &mut steps);
        proof {
            use_type_invariant(&*self);
        }
        if !self.is_valid_led(led) {
            assert(self@ =~= old(self)@);
            return Err(not_found(led));
        }
        steps.push(Command::StartBlink { led, pin: led + PIN_OFFSET, period_ms: frequency_ms });
        assert(steps@ =~= blink_steps(old(self)@, led, frequency_ms));
        let mut blinking = self.take_register();
        blinking.insert(led, frequency_ms);
        self.blinking = blinking;
        assert(self@ =~= old(self)@.insert(led, frequency_ms));
        Ok(Operation::new(steps))
    }

    /// Puts the whole board out: every blink task is cancelled, then every
    /// light is turned off, in ascending order. As in every operation the
    /// first write that fails ends it, and the lights after it are not
    /// written.
    pub fn all_off(&mut self) -> (op: Operation)
        ensures
            op.fresh(all_off_steps(old(self)@)),
            final(self)@ == Map::<u8, u64>::empty(),
    {
        broadcast use vstd::std_specs::hash::group_hash_axioms;

        let mut steps: Vec<Command> = Vec::new();
        let mut led: u8 = 1;
        while led <= LED_COUNT
            invariant
                1 <= led <= LED_COUNT + 1,
                steps@ == cancel_all_steps(self@, (led - 1) as nat),
            decreases LED_COUNT + 1 - led,
        {
            if self.blinking.contains_key(&led) {
                steps.push(Command::CancelBlink { led });
            }
            assert(steps@ =~= cancel_all_steps(self@, led as nat));
            led = led + 1;
        }
        self.blinking = HashMap::new();
        let ghost cancels = steps@;
        let mut led: u8 = 1;
        while led <= LED_COUNT
            invariant
                1 <= led <= LED_COUNT + 1,
                steps@ == cancels + write_all_steps((led - 1) as nat, LedState::Off),
            decreases LED_COUNT + 1 - led,
        {
            steps.push(Command::SetValue { led, pin: led + PIN_OFFSET, state: LedState::Off });
            assert(steps@ =~= cancels + write_all_steps(led as nat, LedState::Off));
            led = led + 1;
        }
        Operation::new(steps)
    }

    /// Sets the light at `position` of `subset` to `state`.
    pub fn set_led_by_color(&mut self, subset: LedSubset, position: u8, state: LedState) -> (r:
        Result<Operation, TrainError>)
        ensures
            match r {
                Ok(op) => subset.has_position(position) && op.fresh(
                    set_steps(old(self)@, subset.led_at(position), state),
                ) && final(self)@ == old(self)@.remove(subset.led_at(position)),
                Err(e) => !subset.has_position(position) && e@ == position_out_of_range(
                    position,
                    subset.size(),
                ) && final(self)@ == old(self)@,
            },
            well_formed(final(self)@),
    {
        proof {
            use_type_invariant(&*self);
        }
        let led = match Self::get_led_from_subset(subset, position) {
            Ok(led) => led,
            Err(e) => {
                return Err(e);
            },
        };
        match state {
            LedState::On => self.on(led),
            LedState::Off => self.off(led),
        }
    }

    /// Turns on the green light at `position`.
    pub fn green_on(&mut self, position: u8) -> (r: Result<Operation, TrainError>)
        ensures
            match r {
                Ok(op) => GREEN_LEDS.has_position(position) && op.fresh(
                    set_steps(old(self)@, GREEN_LEDS.led_at(position), LedState::On),
                ) && final(self)@ == old(self)@.remove(GREEN_LEDS.led_at(position)),
                Err(e) => !GREEN_LEDS.has_position(position) && e@ == position_out_of_range(
                    position,
                    GREEN_LEDS.size(),
                ) && final(self)@ == old(self)@,
            },
            well_formed(final(self)@),
    {
        self.set_led_by_color(GREEN_LEDS, position, LedState::On)
    }

    /// Turns off the green light at `position`.
    pub fn green_off(&mut self, position: u8) -> (r: Result<Operation, TrainError>)
        ensures
            match r {
                Ok(op) => GREEN_LEDS.has_position(position) && op.fresh(
                    set_steps(old(self)@, GREEN_LEDS.led_at(position), LedState::Off),
                ) && final(self)@ == old(self)@.remove(GREEN_LEDS.led_at(position)),
                Err(e) => !GREEN_LEDS.has_position(position) && e@ == position_out_of_range(
                    position,
                    GREEN_LEDS.size(),
                ) && final(self)@ == old(self)@,
            },
            well_formed(final(self)@),
    {
        self.set_led_by_color(GREEN_LEDS, position, LedState::Off)
    }

    /// Turns on the amber light at `position`.
    pub fn amber_on(&mut self, position: u8) -> (r: Result<Operation, TrainError>)
        ensures
            match r {
                Ok(op) => AMBER_LEDS.has_position(position) && op.fresh(
                    set_steps(old(self)@, AMBER_LEDS.led_at(position), LedState::On),
                ) && final(self)@ == old(self)@.remove(AMBER_LEDS.led_at(position)),
                Err(e) => !AMBER_LEDS.has_position(position) && e@ == position_out_of_range(
                    position,
                    AMBER_LEDS.size(),
                ) && final(self)@ == old(self)@,
            },
            well_formed(final(self)@),
    {
        self.set_led_by_color(AMBER_LEDS, position, LedState::On)
    }

    /// Turns off the amber light at `position`.
    pub fn amber_off(&mut self, position: u8) -> (r: Result<Operation, TrainError>)
        ensures
            match r {
                Ok(op) => AMBER_LEDS.has_position(position) && op.fresh(
                    set_steps(old(self)@, AMBER_LEDS.led_at(position), LedState::Off),
                ) && final(self)@ == old(self)@.remove(AMBER_LEDS.led_at(position)),
                Err(e) => !AMBER_LEDS.has_position(position) && e@ == position_out_of_range(
                    position,
                    AMBER_LEDS.size(),
                ) && final(self)@ == old(self)@,
            },
            well_formed(final(self)@),
    {
        self.set_led_by_color(AMBER_LEDS, position, LedState::Off)
    }

    /// Turns on the red light at `position`.
    pub fn red_on(&mut self, position: u8) -> (r: Result<Operation, TrainError>)
        ensures
            match r {
                Ok(op) => RED_LEDS.has_position(position) && op.fresh(
                    set_steps(old(self)@, RED_LEDS.led_at(position), LedState::On),
                ) && final(self)@ == old(self)@.remove(RED_LEDS.led_at(position)),
                Err(e) => !RED_LEDS.has_position(position) && e@ == position_out_of_range(
                    position,
                    RED_LEDS.size(),
                ) && final(self)@ == old(self)@,
            },
            well_formed(final(self)@),
    {
        self.set_led_by_color(RED_LEDS, position, LedState::On)
    }

    /// Turns off the red light at `position`.
    pub fn red_off(&mut self, position: u8) -> (r: Result<Operation, TrainError>)
        ensures
            match r {
                Ok(op) => RED_LEDS.has_position(position) && op.fresh(
                    set_steps(old(self)@, RED_LEDS.led_at(position), LedState::Off),
                ) && final(self)@ == old(self)@.remove(RED_LEDS.led_at(position)),
                Err(e) => !RED_LEDS.has_position(position) && e@ == position_out_of_range(
                    position,
                    RED_LEDS.size(),
                ) && final(self)@ == old(self)@,
            },
            well_formed(final(self)@),
    {
        self.set_led_by_color(RED_LEDS, position, LedState::Off)
    }

    /// Makes the light at `position` of `subset` toggle every
    /// `frequency_ms` milliseconds. The position is looked at first, the
    /// period second.
    pub fn blink_by_color(&mut self, subset: LedSubset, position: u8, frequency_ms: u64) -> (r:
        Result<Operation, TrainError>)
        ensures
            match r {
                Ok(op) => subset.has_position(position) && frequency_ms > 0 && op.fresh(
                    blink_steps(old(self)@, subset.led_at(position), frequency_ms),
                ) && final(self)@ == old(self)@.insert(subset.led_at(position), frequency_ms),
                Err(e) => final(self)@ == old(self)@ && (if !subset.has_position(position) {
                    e@ == position_out_of_range(position, subset.size())
                } else {
                    frequency_ms == 0 && e@ == period_is_zero()
                }),
            },
            well_formed(final(self)@),
    {
        proof {
            use_type_invariant(&*self);
        }
        let led = match Self::get_led_from_subset(subset, position) {
            Ok(led) => led,
            Err(e) => {
                return Err(e);
            },
        };
        self.blink(led, frequency_ms)
    }

    /// The light at `position` of `subset`, the first light being at position 1.
    pub fn get_led_from_subset(subset: LedSubset, position: u8) -> (r: Result<u8, TrainError>)
        ensures
            match r {
                Ok(led) => subset.has_position(position) && led == subset.led_at(position),
                Err(e) => !subset.has_position(position) && e@ == position_out_of_range(
                    position,
                    subset.size(),
                ),
            },
    {
        let start = subset.start();
        let end = subset.end();
        let count = end - start + 1;
        if position < 1 || position > count {
            let mut detail = String::from_str("Position ");
            push_decimal(&mut detail, position as u64);
            detail.append(" is out of range for subset (1-");
            push_decimal(&mut detail, count as u64);
            detail.append(")");
            return Err(TrainError::InvalidParameter(detail));
        }
        Ok(start + position - 1)
    }

    /// The number of lights.
    pub fn count(&self) -> (n: usize)
        ensures
            n == LED_COUNT,
    {
        LED_COUNT as usize
    }

    /// Whether `led` is the number of a light (1 to 24).
    pub fn is_valid_led(&self, led: u8) -> (b: bool)
        ensures
            b == valid_led(led),
    {
        led >= 1 && led <= LED_COUNT
    }
}

} // verus!
