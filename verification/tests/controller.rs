use std::collections::HashMap;
use train::command::Command;
use train::error::TrainError;
use train::leds::{Blinker, LedController, LedState};
use train::operation::Operation;
use train::{AMBER_LEDS, GREEN_LEDS, RED_LEDS};

/// A driver for the tests: it keeps the level of each requested line and the
/// period of each running task, and counts the tasks that were started over
/// one that was still running.
struct Bench {
    levels: HashMap<u8, LedState>,
    tasks: HashMap<u8, u64>,
    strays: usize,
}

impl Bench {
    fn new() -> Bench {
        Bench { levels: HashMap::new(), tasks: HashMap::new(), strays: 0 }
    }

    fn perform(&mut self, command: Command) {
        match command {
            Command::OpenChip => {}
            Command::GetLine { .. } => {}
            Command::RequestOutput { pin, initial, .. } => {
                self.levels.insert(pin, initial);
            }
            Command::SetValue { pin, state, .. } => {
                self.levels.insert(pin, state);
            }
            Command::StartBlink { led, period_ms, .. } => {
                if self.tasks.insert(led, period_ms).is_some() {
                    self.strays += 1;
                }
            }
            Command::CancelBlink { led } => {
                self.tasks.remove(&led);
            }
        }
    }

    fn run(&mut self, mut op: Operation) -> Result<(), TrainError> {
        while let Some(command) = op.next() {
            self.perform(command);
            assert_eq!(self.strays, 0);
            op.report(Ok(()));
        }
        op.finish()
    }

    /// Runs `op`, but the command at `index` fails with `cause`.
    fn run_until(
        &mut self,
        mut op: Operation,
        index: usize,
        cause: &str,
    ) -> Result<(), TrainError> {
        let mut at = 0;
        while let Some(command) = op.next() {
            if at == index {
                op.report(Err(cause.to_string()));
            } else {
                self.perform(command);
                op.report(Ok(()));
            }
            at += 1;
        }
        op.finish()
    }
}

fn board() -> (LedController, Bench) {
    let mut bench = Bench::new();
    let mut startup = LedController::startup();
    while let Some(command) = startup.next() {
        bench.perform(command);
        startup.report(Ok(()));
    }
    let controller = LedController::new(startup).unwrap();
    (controller, bench)
}

fn write(led: u8, state: LedState) -> Command {
    Command::SetValue { led, pin: led + 3, state }
}

fn start(led: u8, period_ms: u64) -> Command {
    Command::StartBlink { led, pin: led + 3, period_ms }
}

fn cancel(led: u8) -> Command {
    Command::CancelBlink { led }
}

#[test]
fn startup_opens_the_chip_and_requests_24_outputs_at_level_0() {
    let startup = LedController::startup();
    let steps = startup.steps();
    assert_eq!(steps.len(), 49);
    assert_eq!(steps[0], Command::OpenChip);
    for led in 1..=24u8 {
        let at = 2 * (led as usize) - 1;
        assert_eq!(steps[at], Command::GetLine { led, pin: led + 3 });
        assert_eq!(
            steps[at + 1],
            Command::RequestOutput { led, pin: led + 3, initial: LedState::Off }
        );
    }
    assert_eq!(steps[1], Command::GetLine { led: 1, pin: 4 });
    assert_eq!(steps[48], Command::RequestOutput { led: 24, pin: 27, initial: LedState::Off });
    assert!(startup.opens_board());
    assert!(!startup.is_finished());
}

#[test]
fn after_startup_every_line_is_low_and_nothing_blinks() {
    let (_controller, bench) = board();
    assert_eq!(bench.levels.len(), 24);
    for pin in 4..=27u8 {
        assert_eq!(bench.levels[&pin], LedState::Off);
    }
    assert!(bench.tasks.is_empty());
}

#[test]
fn a_chip_that_does_not_open_leaves_no_controller() {
    let mut startup = LedController::startup();
    assert_eq!(startup.next(), Some(Command::OpenChip));
    startup.report(Err("No such file or directory (os error 2)".to_string()));
    assert!(startup.is_finished());
    assert_eq!(startup.next(), None);
    let e = LedController::new(startup).unwrap_err();
    assert!(matches!(e, TrainError::GPIO(_)));
    assert_eq!(
        e.to_string(),
        "GPIO error: Failed to open GPIO chip: No such file or directory (os error 2)"
    );
}

#[test]
fn a_line_that_is_not_found_leaves_no_controller() {
    let mut startup = LedController::startup();
    for _ in 0..9 {
        startup.report(Ok(()));
    }
    assert_eq!(startup.next(), Some(Command::GetLine { led: 5, pin: 8 }));
    startup.report(Err("Offset 8 is out of range".to_string()));
    assert_eq!(startup.next(), None);
    let e = LedController::new(startup).unwrap_err();
    assert_eq!(
        e.to_string(),
        "GPIO error: Failed to get GPIO line 8 for LED 5: Offset 8 is out of range"
    );
}

#[test]
fn a_line_that_is_refused_leaves_no_controller() {
    let mut startup = LedController::startup();
    for _ in 0..48 {
        startup.report(Ok(()));
    }
    assert_eq!(
        startup.next(),
        Some(Command::RequestOutput { led: 24, pin: 27, initial: LedState::Off })
    );
    startup.report(Err("Device or resource busy".to_string()));
    let e = LedController::new(startup).unwrap_err();
    assert_eq!(
        e.to_string(),
        "GPIO error: Failed to request GPIO line 27 for LED 24: Device or resource busy"
    );
}

#[test]
fn a_startup_that_is_under_way_gives_no_controller() {
    let mut startup = LedController::startup();
    let e = LedController::new(startup).unwrap_err();
    assert!(matches!(e, TrainError::NotSupported));
    startup = LedController::startup();
    for _ in 0..48 {
        startup.report(Ok(()));
    }
    let e = LedController::new(startup).unwrap_err();
    assert!(matches!(e, TrainError::NotSupported));
}

#[test]
fn only_startup_gives_a_controller() {
    let (mut controller, mut bench) = board();
    let mut op = controller.on(1).unwrap();
    assert!(!op.opens_board());
    while let Some(command) = op.next() {
        bench.perform(command);
        op.report(Ok(()));
    }
    let e = LedController::new(op).unwrap_err();
    assert!(matches!(e, TrainError::NotSupported));
}

#[test]
fn on_writes_1_to_the_line_of_the_light() {
    let (mut controller, mut bench) = board();
    let op = controller.on(3).unwrap();
    assert_eq!(op.steps(), &vec![write(3, LedState::On)]);
    assert_eq!(op.steps()[0], Command::SetValue { led: 3, pin: 6, state: LedState::On });
    bench.run(op).unwrap();
    assert_eq!(bench.levels[&6], LedState::On);
}

#[test]
fn off_writes_0_to_the_line_of_the_light() {
    let (mut controller, mut bench) = board();
    bench.run(controller.on(24).unwrap()).unwrap();
    let op = controller.off(24).unwrap();
    assert_eq!(op.steps(), &vec![Command::SetValue { led: 24, pin: 27, state: LedState::Off }]);
    bench.run(op).unwrap();
    assert_eq!(bench.levels[&27], LedState::Off);
}

#[test]
fn blink_starts_one_task() {
    let (mut controller, mut bench) = board();
    let op = controller.blink(7, 250).unwrap();
    assert_eq!(op.steps(), &vec![Command::StartBlink { led: 7, pin: 10, period_ms: 250 }]);
    bench.run(op).unwrap();
    assert_eq!(bench.tasks.len(), 1);
    assert_eq!(bench.tasks[&7], 250);
}

#[test]
fn off_after_blink_leaves_no_task_and_the_pin_low() {
    let (mut controller, mut bench) = board();
    for led in [1u8, 9, 24] {
        bench.run(controller.on(led).unwrap()).unwrap();
        bench.run(controller.blink(led, 100).unwrap()).unwrap();
        let op = controller.off(led).unwrap();
        assert_eq!(op.steps(), &vec![cancel(led), write(led, LedState::Off)]);
        bench.run(op).unwrap();
        assert!(!bench.tasks.contains_key(&led));
        assert_eq!(bench.levels[&(led + 3)], LedState::Off);
        // Nothing is registered any more: the next operation cancels nothing.
        assert_eq!(controller.off(led).unwrap().steps(), &vec![write(led, LedState::Off)]);
    }
}

#[test]
fn on_after_blink_leaves_no_task_and_the_pin_high() {
    let (mut controller, mut bench) = board();
    bench.run(controller.blink(5, 40).unwrap()).unwrap();
    let op = controller.on(5).unwrap();
    assert_eq!(op.steps(), &vec![cancel(5), write(5, LedState::On)]);
    bench.run(op).unwrap();
    assert!(bench.tasks.is_empty());
    assert_eq!(bench.levels[&8], LedState::On);
}

#[test]
fn blink_twice_leaves_one_task_at_the_second_period() {
    let (mut controller, mut bench) = board();
    let first = controller.blink(12, 100).unwrap();
    assert_eq!(first.steps(), &vec![start(12, 100)]);
    bench.run(first).unwrap();
    let second = controller.blink(12, 700).unwrap();
    assert_eq!(second.steps(), &vec![cancel(12), start(12, 700)]);
    bench.run(second).unwrap();
    assert_eq!(bench.tasks.len(), 1);
    assert_eq!(bench.tasks[&12], 700);
    assert_eq!(bench.strays, 0);
}

#[test]
fn blink_with_period_zero_is_refused_and_registers_nothing() {
    let (mut controller, mut bench) = board();
    let e = controller.blink(4, 0).unwrap_err();
    assert!(matches!(e, TrainError::InvalidParameter(_)));
    assert_eq!(e.to_string(), "Invalid parameter: Blink frequency must be greater than 0");
    // No task was registered: nothing is there to cancel.
    assert_eq!(controller.on(4).unwrap().steps(), &vec![write(4, LedState::On)]);
    // A task that runs is not touched by the refused request.
    bench.run(controller.blink(4, 90).unwrap()).unwrap();
    assert!(controller.blink(4, 0).is_err());
    assert_eq!(controller.off(4).unwrap().steps(), &vec![cancel(4), write(4, LedState::Off)]);
}

#[test]
fn blink_with_period_zero_on_no_light_reports_the_period() {
    let (mut controller, _bench) = board();
    let e = controller.blink(0, 0).unwrap_err();
    assert_eq!(e.to_string(), "Invalid parameter: Blink frequency must be greater than 0");
}

#[test]
fn every_operation_refuses_a_number_that_names_no_light() {
    let (mut controller, _bench) = board();
    for led in [0u8, 25, 26, 200, 255] {
        let expected = format!("Invalid parameter: LED {} not found", led);
        let e = controller.on(led).unwrap_err();
        assert!(matches!(e, TrainError::InvalidParameter(_)));
        assert_eq!(e.to_string(), expected);
        let e = controller.off(led).unwrap_err();
        assert!(matches!(e, TrainError::InvalidParameter(_)));
        assert_eq!(e.to_string(), expected);
        let e = controller.blink(led, 100).unwrap_err();
        assert!(matches!(e, TrainError::InvalidParameter(_)));
        assert_eq!(e.to_string(), expected);
        assert!(!controller.is_valid_led(led));
    }
    // Nothing was registered on the way.
    let op = controller.all_off();
    assert_eq!(op.steps().len(), 24);
}

#[test]
fn every_light_of_the_board_is_accepted() {
    let (mut controller, mut bench) = board();
    for led in 1..=24u8 {
        assert!(controller.is_valid_led(led));
        bench.run(controller.on(led).unwrap()).unwrap();
        assert_eq!(bench.levels[&(led + 3)], LedState::On);
        bench.run(controller.blink(led, 10).unwrap()).unwrap();
        bench.run(controller.off(led).unwrap()).unwrap();
        assert_eq!(bench.levels[&(led + 3)], LedState::Off);
    }
    assert!(bench.tasks.is_empty());
}

#[test]
fn all_off_cancels_every_task_and_writes_0_to_every_line() {
    let (mut controller, mut bench) = board();
    bench.run(controller.on(1).unwrap()).unwrap();
    bench.run(controller.blink(17, 300).unwrap()).unwrap();
    bench.run(controller.blink(2, 100).unwrap()).unwrap();
    bench.run(controller.on(24).unwrap()).unwrap();
    let op = controller.all_off();
    let mut expected = vec![cancel(2), cancel(17)];
    for led in 1..=24u8 {
        expected.push(write(led, LedState::Off));
    }
    assert_eq!(op.steps(), &expected);
    bench.run(op).unwrap();
    assert!(bench.tasks.is_empty());
    assert_eq!(bench.levels.len(), 24);
    for pin in 4..=27u8 {
        assert_eq!(bench.levels[&pin], LedState::Off);
    }
    // The register is empty too.
    assert_eq!(controller.on(17).unwrap().steps(), &vec![write(17, LedState::On)]);
    assert_eq!(controller.all_off().steps().len(), 24);
}

#[test]
fn all_off_on_a_dark_board_writes_0_to_every_line() {
    let (mut controller, mut bench) = board();
    let op = controller.all_off();
    assert_eq!(op.steps().len(), 24);
    assert_eq!(op.steps()[0], Command::SetValue { led: 1, pin: 4, state: LedState::Off });
    assert_eq!(op.steps()[23], Command::SetValue { led: 24, pin: 27, state: LedState::Off });
    bench.run(op).unwrap();
    for pin in 4..=27u8 {
        assert_eq!(bench.levels[&pin], LedState::Off);
    }
}

#[test]
fn all_off_with_every_light_blinking() {
    let (mut controller, mut bench) = board();
    for led in 1..=24u8 {
        bench.run(controller.blink(led, 10 * led as u64).unwrap()).unwrap();
    }
    assert_eq!(bench.tasks.len(), 24);
    let op = controller.all_off();
    assert_eq!(op.steps().len(), 48);
    for led in 1..=24u8 {
        assert_eq!(op.steps()[led as usize - 1], cancel(led));
    }
    bench.run(op).unwrap();
    assert!(bench.tasks.is_empty());
}

#[test]
fn all_off_stops_at_the_first_write_that_fails() {
    let (mut controller, mut bench) = board();
    for led in 1..=24u8 {
        bench.run(controller.on(led).unwrap()).unwrap();
    }
    bench.run(controller.blink(20, 100).unwrap()).unwrap();
    let op = controller.all_off();
    // One cancellation, then the writes: the write to light 3 fails.
    let e = bench.run_until(op, 3, "Ioctl to set line value failed: EIO").unwrap_err();
    assert!(matches!(e, TrainError::GPIO(_)));
    assert_eq!(
        e.to_string(),
        "GPIO error: Failed to turn off LED 3: Ioctl to set line value failed: EIO"
    );
    assert!(bench.tasks.is_empty());
    assert_eq!(bench.levels[&4], LedState::Off);
    assert_eq!(bench.levels[&5], LedState::Off);
    for pin in 6..=27u8 {
        assert_eq!(bench.levels[&pin], LedState::On);
    }
}

#[test]
fn a_write_that_fails_is_reported_with_the_light() {
    let (mut controller, mut bench) = board();
    let e = bench.run_until(controller.on(3).unwrap(), 0, "EIO").unwrap_err();
    assert!(matches!(e, TrainError::GPIO(_)));
    assert_eq!(e.to_string(), "GPIO error: Failed to turn on LED 3: EIO");
    let e = bench.run_until(controller.off(11).unwrap(), 0, "EBUSY").unwrap_err();
    assert_eq!(e.to_string(), "GPIO error: Failed to turn off LED 11: EBUSY");
    // The write after a cancellation.
    bench.run(controller.blink(8, 5).unwrap()).unwrap();
    let e = bench.run_until(controller.off(8).unwrap(), 1, "EIO").unwrap_err();
    assert_eq!(e.to_string(), "GPIO error: Failed to turn off LED 8: EIO");
    assert!(bench.tasks.is_empty());
}

#[test]
fn a_task_command_that_fails_is_a_hardware_error() {
    let (mut controller, mut bench) = board();
    let e = bench.run_until(controller.blink(8, 5).unwrap(), 0, "no runtime").unwrap_err();
    assert!(matches!(e, TrainError::Hardware(_)));
    assert_eq!(e.to_string(), "Hardware interface error: no runtime");
    let e = bench.run_until(controller.off(8).unwrap(), 0, "gone").unwrap_err();
    assert!(matches!(e, TrainError::Hardware(_)));
    assert_eq!(e.to_string(), "Hardware interface error: gone");
}

#[test]
fn each_command_names_its_failure() {
    assert_eq!(Command::OpenChip.fail("x").to_string(), "GPIO error: Failed to open GPIO chip: x");
    assert_eq!(
        Command::GetLine { led: 10, pin: 13 }.fail("x").to_string(),
        "GPIO error: Failed to get GPIO line 13 for LED 10: x"
    );
    assert_eq!(
        Command::RequestOutput { led: 10, pin: 13, initial: LedState::Off }.fail("").to_string(),
        "GPIO error: Failed to request GPIO line 13 for LED 10: "
    );
    assert_eq!(
        Command::SetValue { led: 1, pin: 4, state: LedState::On }.fail("x").to_string(),
        "GPIO error: Failed to turn on LED 1: x"
    );
    assert_eq!(
        Command::SetValue { led: 1, pin: 4, state: LedState::Off }.fail("x").to_string(),
        "GPIO error: Failed to turn off LED 1: x"
    );
    assert_eq!(start(1, 5).fail("x").to_string(), "Hardware interface error: x");
    assert_eq!(cancel(1).fail("x").to_string(), "Hardware interface error: x");
}

#[test]
fn task_commands_are_told_from_line_commands() {
    assert!(start(1, 5).starts_or_cancels());
    assert!(cancel(1).starts_or_cancels());
    assert!(!write(1, LedState::On).starts_or_cancels());
    assert!(!Command::OpenChip.starts_or_cancels());
    assert!(!Command::GetLine { led: 1, pin: 4 }.starts_or_cancels());
    assert!(!Command::RequestOutput { led: 1, pin: 4, initial: LedState::Off }.starts_or_cancels());
}

#[test]
fn task_commands_come_before_line_commands() {
    let (mut controller, mut bench) = board();
    for led in [3u8, 9, 21] {
        bench.run(controller.blink(led, 100).unwrap()).unwrap();
    }
    let plans = vec![
        controller.on(3).unwrap(),
        controller.blink(9, 50).unwrap(),
        controller.all_off(),
        LedController::startup(),
    ];
    for op in plans {
        let mut line_seen = false;
        for command in op.steps() {
            if command.starts_or_cancels() {
                assert!(!line_seen);
            } else {
                line_seen = true;
            }
        }
    }
}

#[test]
fn an_operation_hands_out_its_commands_in_order() {
    let (mut controller, mut bench) = board();
    bench.run(controller.blink(6, 100).unwrap()).unwrap();
    let mut op = controller.on(6).unwrap();
    assert!(!op.is_finished());
    assert_eq!(op.next(), Some(cancel(6)));
    assert_eq!(op.next(), Some(cancel(6)));
    op.report(Ok(()));
    assert_eq!(op.next(), Some(write(6, LedState::On)));
    op.report(Ok(()));
    assert_eq!(op.next(), None);
    assert!(op.is_finished());
    assert!(op.finish().is_ok());
}

#[test]
fn a_report_on_a_finished_operation_is_ignored() {
    let (mut controller, _bench) = board();
    let mut op = controller.on(6).unwrap();
    op.report(Ok(()));
    op.report(Err("too late".to_string()));
    assert!(op.finish().is_ok());
    let mut op = controller.on(6).unwrap();
    op.report(Err("first".to_string()));
    op.report(Err("second".to_string()));
    op.report(Ok(()));
    assert_eq!(op.next(), None);
    assert_eq!(op.finish().unwrap_err().to_string(), "GPIO error: Failed to turn on LED 6: first");
}

#[test]
fn an_operation_under_way_has_no_result() {
    let (mut controller, _bench) = board();
    let op = controller.all_off();
    assert!(matches!(op.finish().unwrap_err(), TrainError::NotSupported));
}

#[test]
fn the_colours_resolve_to_their_lights() {
    let (mut controller, _bench) = board();
    assert_eq!(controller.green_on(2).unwrap().steps(), &vec![write(2, LedState::On)]);
    assert_eq!(controller.green_off(6).unwrap().steps(), &vec![write(6, LedState::Off)]);
    assert_eq!(controller.amber_on(1).unwrap().steps(), &vec![write(7, LedState::On)]);
    assert_eq!(controller.amber_off(2).unwrap().steps(), &vec![write(8, LedState::Off)]);
    assert_eq!(controller.red_on(1).unwrap().steps(), &vec![write(13, LedState::On)]);
    assert_eq!(controller.red_off(12).unwrap().steps(), &vec![write(24, LedState::Off)]);
    assert_eq!(
        controller.set_led_by_color(RED_LEDS, 2, LedState::Off).unwrap().steps(),
        &vec![Command::SetValue { led: 14, pin: 17, state: LedState::Off }]
    );
    assert_eq!(
        controller.set_led_by_color(GREEN_LEDS, 3, LedState::On).unwrap().steps(),
        &vec![Command::SetValue { led: 3, pin: 6, state: LedState::On }]
    );
}

#[test]
fn the_colours_refuse_positions_they_do_not_have() {
    let (mut controller, _bench) = board();
    let e = controller.green_on(7).unwrap_err();
    assert_eq!(e.to_string(), "Invalid parameter: Position 7 is out of range for subset (1-6)");
    assert!(controller.green_off(0).is_err());
    assert!(controller.amber_on(7).is_err());
    assert!(controller.amber_off(0).is_err());
    assert!(controller.red_on(13).is_err());
    let e = controller.red_off(200).unwrap_err();
    assert_eq!(e.to_string(), "Invalid parameter: Position 200 is out of range for subset (1-12)");
    assert!(controller.set_led_by_color(AMBER_LEDS, 9, LedState::On).is_err());
}

#[test]
fn blink_by_color_resolves_and_blinks() {
    let (mut controller, mut bench) = board();
    let op = controller.blink_by_color(RED_LEDS, 1, 500).unwrap();
    assert_eq!(op.steps(), &vec![Command::StartBlink { led: 13, pin: 16, period_ms: 500 }]);
    bench.run(op).unwrap();
    let op = controller.red_off(1).unwrap();
    assert_eq!(op.steps(), &vec![cancel(13), write(13, LedState::Off)]);
    bench.run(op).unwrap();
    let e = controller.blink_by_color(RED_LEDS, 13, 0).unwrap_err();
    assert_eq!(e.to_string(), "Invalid parameter: Position 13 is out of range for subset (1-12)");
    let e = controller.blink_by_color(RED_LEDS, 1, 0).unwrap_err();
    assert_eq!(e.to_string(), "Invalid parameter: Blink frequency must be greater than 0");
    assert_eq!(controller.all_off().steps().len(), 24);
}

#[test]
fn two_lights_do_not_touch_each_other() {
    let (mut first, mut first_bench) = board();
    first_bench.run(first.blink(3, 10).unwrap()).unwrap();
    first_bench.run(first.blink(17, 20).unwrap()).unwrap();
    let (mut second, mut second_bench) = board();
    second_bench.run(second.blink(3, 10).unwrap()).unwrap();
    second_bench.run(second.blink(17, 20).unwrap()).unwrap();

    let a = first.on(3).unwrap();
    let b = first.on(17).unwrap();
    assert_eq!(a.steps(), &vec![cancel(3), write(3, LedState::On)]);
    assert_eq!(b.steps(), &vec![cancel(17), write(17, LedState::On)]);
    first_bench.run(a).unwrap();
    first_bench.run(b).unwrap();

    let b = second.on(17).unwrap();
    let a = second.on(3).unwrap();
    assert_eq!(a.steps(), &vec![cancel(3), write(3, LedState::On)]);
    assert_eq!(b.steps(), &vec![cancel(17), write(17, LedState::On)]);
    // The commands of the two operations, taken in turn.
    second_bench.perform(b.steps()[0]);
    second_bench.perform(a.steps()[0]);
    second_bench.perform(a.steps()[1]);
    second_bench.perform(b.steps()[1]);

    assert_eq!(first_bench.levels, second_bench.levels);
    assert_eq!(first_bench.tasks, second_bench.tasks);
    assert_eq!(first_bench.levels[&6], LedState::On);
    assert_eq!(first_bench.levels[&20], LedState::On);
    assert!(first_bench.tasks.is_empty());
}

#[test]
fn the_controller_counts_24_lights() {
    let (controller, _bench) = board();
    assert_eq!(controller.count(), 24);
    assert!(controller.is_valid_led(1));
    assert!(controller.is_valid_led(24));
    assert!(!controller.is_valid_led(0));
    assert!(!controller.is_valid_led(25));
}

#[test]
fn a_blinker_lights_the_light_on_its_first_tick() {
    let mut blinker = Blinker::new();
    assert_eq!(blinker.tick(), LedState::On);
    assert_eq!(blinker.tick(), LedState::Off);
    assert_eq!(blinker.tick(), LedState::On);
    assert_eq!(blinker.tick(), LedState::Off);
}
