use eink_panel::busy::{BusyOutcome, BusyWait, wait_busy_trace};
use eink_panel::controller::{MIN_REFRESH_INTERVAL_MS, PanelController, PanelState};
use eink_panel::encoder::encode;
use eink_panel::errors::{EinkError, ProtocolPhase};
use eink_panel::frame::LayerKind;
use eink_panel::geometry::Geometry;
use eink_panel::pixels::PixelImage;
use eink_panel::protocol::{ControlLine, HwAction, LineDirection};

fn reference_controller() -> PanelController {
    PanelController::new(Geometry::new(400, 300).expect("well-formed geometry"))
}

fn expected_power_on(activation: u8, temp_code: u8) -> Vec<HwAction> {
    vec![
        HwAction::SetDirection(ControlLine::Power, LineDirection::OutputHigh),
        HwAction::SetDirection(ControlLine::Reset, LineDirection::OutputLow),
        HwAction::SetDirection(ControlLine::ChipSelect, LineDirection::OutputLow),
        HwAction::SetDirection(ControlLine::DataCommand, LineDirection::OutputLow),
        HwAction::SetDirection(ControlLine::Busy, LineDirection::Input),
        HwAction::Export(ControlLine::Power),
        HwAction::Export(ControlLine::Reset),
        HwAction::Export(ControlLine::ChipSelect),
        HwAction::Export(ControlLine::DataCommand),
        HwAction::Export(ControlLine::Busy),
        HwAction::SleepMs(5),
        HwAction::SetLevel(ControlLine::Reset, true),
        HwAction::SleepMs(5),
        HwAction::SetLevel(ControlLine::Reset, false),
        HwAction::SleepMs(10),
        HwAction::SetLevel(ControlLine::Reset, true),
        HwAction::SleepMs(5),
        HwAction::Write2(0x00, 0x0E),
        HwAction::SleepMs(5),
        HwAction::Write2(0xE5, temp_code),
        HwAction::Write2(activation, 0x02),
        HwAction::Write3(0x00, 0x0F, 0x89),
    ]
}

fn expected_power_off() -> Vec<HwAction> {
    vec![
        HwAction::Write2(0x02, 0x02),
        HwAction::WaitBusy(true),
        HwAction::SetDirection(ControlLine::Reset, LineDirection::Input),
        HwAction::SetLevel(ControlLine::ChipSelect, false),
        HwAction::SetLevel(ControlLine::DataCommand, false),
        HwAction::SetLevel(ControlLine::Power, false),
        HwAction::SetDirection(ControlLine::Busy, LineDirection::OutputLow),
        HwAction::SleepMs(150),
        HwAction::Unexport(ControlLine::Power),
        HwAction::Unexport(ControlLine::Reset),
        HwAction::Unexport(ControlLine::ChipSelect),
        HwAction::Unexport(ControlLine::DataCommand),
        HwAction::Unexport(ControlLine::Busy),
    ]
}

fn expected_send_image() -> Vec<HwAction> {
    vec![
        HwAction::Write1(0x10),
        HwAction::SetLevel(ControlLine::ChipSelect, true),
        HwAction::SetLevel(ControlLine::DataCommand, true),
        HwAction::SetLevel(ControlLine::ChipSelect, false),
        HwAction::WriteLayer(LayerKind::Primary),
        HwAction::SetLevel(ControlLine::DataCommand, false),
        HwAction::Write1(0x13),
        HwAction::SetLevel(ControlLine::ChipSelect, true),
        HwAction::SetLevel(ControlLine::DataCommand, true),
        HwAction::SetLevel(ControlLine::ChipSelect, false),
        HwAction::WriteLayer(LayerKind::Secondary),
        HwAction::SetLevel(ControlLine::DataCommand, false),
        HwAction::WaitBusy(true),
        HwAction::Write2(0x04, 0x04),
        HwAction::WaitBusy(false),
        HwAction::Write2(0x12, 0x12),
        HwAction::WaitBusy(true),
    ]
}

#[test]
fn power_cycle_produces_exact_sequence() {
    // Power-on followed immediately by power-off: exactly the documented
    // byte and line-transition sequence, in order, with no extra writes.
    let mut ctl = reference_controller();
    let on = ctl.power_on_script(0x14);
    ctl.power_on_complete();
    let off = ctl.power_off_script();
    ctl.power_off_complete();
    assert_eq!(on, expected_power_on(0xE0, 0x14));
    assert_eq!(off, expected_power_off());
    assert_eq!(ctl.state, PanelState::Idle);
}

#[test]
fn activation_opcode_depends_on_panel_variant() {
    let reference = reference_controller();
    assert_eq!(
        reference.power_on_script(0x14)[20],
        HwAction::Write2(0xE0, 0x02)
    );
    let other = PanelController::new(Geometry::new(200, 96).expect("well-formed geometry"));
    assert_eq!(other.power_on_script(0x14)[20], HwAction::Write2(0xCF, 0x02));
}

#[test]
fn release_lines_script_unexports_every_line() {
    let ctl = reference_controller();
    let cleanup = ctl.release_lines_script();
    assert_eq!(cleanup.len(), 5);
    for line in [
        ControlLine::Power,
        ControlLine::Reset,
        ControlLine::ChipSelect,
        ControlLine::DataCommand,
        ControlLine::Busy,
    ] {
        assert!(cleanup.contains(&HwAction::Unexport(line)));
    }
}

#[test]
fn send_image_writes_two_layers_in_fixed_order() {
    let g = Geometry::new(400, 300).expect("well-formed geometry");
    let img = PixelImage::new(400, 300, vec![0xFF; 400 * 300]).expect("well-formed image");
    let fb = encode(&img, &g).expect("matching dimensions");
    let mut ctl = reference_controller();
    ctl.power_on_complete();
    let script = ctl.send_image_script(&fb, 0).expect("first refresh is allowed");
    assert_eq!(script, expected_send_image());
    // Each layer payload the script refers to is width*height/8 bytes.
    assert_eq!(fb.primary.len(), 400 * 300 / 8);
    assert_eq!(fb.secondary.len(), 400 * 300 / 8);
}

#[test]
fn send_image_rejects_foreign_geometry() {
    let g = Geometry::new(200, 96).expect("well-formed geometry");
    let img = PixelImage::new(200, 96, vec![0xFF; 200 * 96]).expect("well-formed image");
    let fb = encode(&img, &g).expect("matching dimensions");
    let mut ctl = reference_controller();
    ctl.power_on_complete();
    assert_eq!(
        ctl.send_image_script(&fb, 0).err(),
        Some(EinkError::DimensionMismatch)
    );
}

#[test]
fn refresh_interval_is_enforced() {
    let g = Geometry::new(400, 300).expect("well-formed geometry");
    let img = PixelImage::new(400, 300, vec![0xFF; 400 * 300]).expect("well-formed image");
    let fb = encode(&img, &g).expect("matching dimensions");
    let mut ctl = reference_controller();
    ctl.power_on_complete();
    assert!(ctl.send_image_script(&fb, 1_000).is_ok());
    // A second refresh within the minimum interval is rejected, not executed.
    assert_eq!(
        ctl.send_image_script(&fb, 1_000 + MIN_REFRESH_INTERVAL_MS - 1).err(),
        Some(EinkError::RefreshTooSoon)
    );
    // Once the interval has elapsed it is allowed again.
    assert!(ctl.send_image_script(&fb, 1_000 + MIN_REFRESH_INTERVAL_MS).is_ok());
}

#[test]
fn refresh_budget_survives_power_cycle() {
    let g = Geometry::new(400, 300).expect("well-formed geometry");
    let img = PixelImage::new(400, 300, vec![0xFF; 400 * 300]).expect("well-formed image");
    let fb = encode(&img, &g).expect("matching dimensions");
    let mut ctl = reference_controller();
    ctl.power_on_complete();
    assert!(ctl.send_image_script(&fb, 0).is_ok());
    ctl.power_off_complete();
    ctl.power_on_complete();
    // The interval protects the physical panel, not the session.
    assert_eq!(
        ctl.send_image_script(&fb, 10).err(),
        Some(EinkError::RefreshTooSoon)
    );
}

#[test]
fn bounded_wait_times_out_after_its_bound() {
    // A busy line that never reaches the target state: a timeout after
    // exactly the configured number of polls, not an unbounded block.
    let readings = vec![false; 40];
    assert_eq!(
        wait_busy_trace(true, 40, &readings).err(),
        Some(EinkError::HardwareTimeout)
    );
}

#[test]
fn wait_returns_first_poll_that_observes_target() {
    let mut readings = vec![false; 10];
    readings[3] = true;
    assert_eq!(wait_busy_trace(true, 10, &readings).ok(), Some(3));
}

#[test]
fn wait_for_deasserted_level() {
    let readings = vec![true, true, false, true];
    assert_eq!(wait_busy_trace(false, 4, &readings).ok(), Some(2));
}

#[test]
fn busy_wait_machine_counts_polls() {
    let mut wait = BusyWait::new(true, 2);
    assert_eq!(wait.observe(false), BusyOutcome::KeepWaiting);
    assert_eq!(wait.observe(false), BusyOutcome::TimedOut);
    let mut satisfied = BusyWait::new(true, 2);
    assert_eq!(satisfied.observe(true), BusyOutcome::Satisfied);
}

#[test]
fn errors_name_the_failing_phase() {
    assert!(
        EinkError::HardwareIoError(ProtocolPhase::Initialization)
            .describe()
            .contains("initialization")
    );
    assert!(
        EinkError::HardwareIoError(ProtocolPhase::Transfer)
            .describe()
            .contains("transfer")
    );
    assert!(
        EinkError::HardwareIoError(ProtocolPhase::Shutdown)
            .describe()
            .contains("shutdown")
    );
    assert!(EinkError::HardwareTimeout.describe().contains("busy"));
}
