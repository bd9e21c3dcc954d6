use vstd::prelude::*;
use crate::frame::LayerKind;
use crate::geometry::Geometry;

verus! {

/// One discrete control line of the panel session.  A sixth physical line
/// is reserved and unused in the current protocol.
#[derive(Clone, Copy, Debug, PartialEq, Eq, Structural)]
pub enum ControlLine {
    Power,
    ChipSelect,
    DataCommand,
    Busy,
    Reset,
}

/// The direction (with initial level, for outputs) a line is configured to.
#[derive(Clone, Copy, Debug, PartialEq, Eq, Structural)]
pub enum LineDirection {
    Input,
    OutputHigh,
    OutputLow,
}

/// One primitive hardware step.  The controller plans scripts of these; an
/// integration layer executes them strictly in order against the serial bus
/// and the GPIO lines.  `WriteLayer` writes the full payload of the named
/// layer of the frame being sent; `WaitBusy` polls the busy line every
/// `POLL_INTERVAL_MS` until it reads the given level, bounded by the
/// executor's poll budget.
#[derive(Clone, Copy, Debug, PartialEq, Eq, Structural)]
pub enum HwAction {
    SetDirection(ControlLine, LineDirection),
    Export(ControlLine),
    Unexport(ControlLine),
    SetLevel(ControlLine, bool),
    Write1(u8),
    Write2(u8, u8),
    Write3(u8, u8, u8),
    WriteLayer(LayerKind),
    SleepMs(u64),
    WaitBusy(bool),
}

/// How often the busy line is polled during a `WaitBusy` step.
pub const POLL_INTERVAL_MS: u64 = 5;

/// The panel-activation opcode is a vendor quirk keyed by panel variant:
/// one value for the reference geometry, another for all others.
pub open spec fn activation_opcode(g: Geometry) -> u8 {
    if g.width == 400 && g.height == 300 {
        0xE0
    } else {
        0xCF
    }
}

/// The 1-byte layer-select command that precedes each layer payload.
pub open spec fn layer_select_opcode(k: LayerKind) -> u8 {
    match k {
        LayerKind::Primary => 0x10,
        LayerKind::Secondary => 0x13,
    }
}

/// The full power-up sequence (Idle -> Active): configure and export every
/// line, pulse reset to wake the driver electronics, soft reset, write the
/// temperature compensation code, activate the panel variant, and write the
/// panel settings.
pub open spec fn power_on_seq(g: Geometry, temp_code: u8) -> Seq<HwAction> {
    seq![
        // line directions
        HwAction::SetDirection(ControlLine::Power, LineDirection::OutputHigh),
        HwAction::SetDirection(ControlLine::Reset, LineDirection::OutputLow),
        HwAction::SetDirection(ControlLine::ChipSelect, LineDirection::OutputLow),
        HwAction::SetDirection(ControlLine::DataCommand, LineDirection::OutputLow),
        HwAction::SetDirection(ControlLine::Busy, LineDirection::Input),
        // exports
        HwAction::Export(ControlLine::Power),
        HwAction::Export(ControlLine::Reset),
        HwAction::Export(ControlLine::ChipSelect),
        HwAction::Export(ControlLine::DataCommand),
        HwAction::Export(ControlLine::Busy),
        // reset pulse
        HwAction::SleepMs(5),
        HwAction::SetLevel(ControlLine::Reset, true),
        HwAction::SleepMs(5),
        HwAction::SetLevel(ControlLine::Reset, false),
        HwAction::SleepMs(10),
        HwAction::SetLevel(ControlLine::Reset, true),
        HwAction::SleepMs(5),
        // soft reset
        HwAction::Write2(0x00, 0x0E),
        HwAction::SleepMs(5),
        // temperature compensation
        HwAction::Write2(0xE5, temp_code),
        // panel-variant activation
        HwAction::Write2(activation_opcode(g), 0x02),
        // panel settings
        HwAction::Write3(0x00, 0x0F, 0x89),
    ]
}

/// The full frame-transfer-and-refresh sequence, valid only while active:
/// each layer in fixed order primary-then-secondary (layer select, then the
/// payload bracketed by the chip-select / data-command transitions), then
/// power-on-display and refresh, each gated on the busy line.
pub open spec fn send_image_seq() -> Seq<HwAction> {
    seq![
        // primary layer
        HwAction::Write1(0x10),
        HwAction::SetLevel(ControlLine::ChipSelect, true),
        HwAction::SetLevel(ControlLine::DataCommand, true),
        HwAction::SetLevel(ControlLine::ChipSelect, false),
        HwAction::WriteLayer(LayerKind::Primary),
        HwAction::SetLevel(ControlLine::DataCommand, false),
        // secondary layer
        HwAction::Write1(0x13),
        HwAction::SetLevel(ControlLine::ChipSelect, true),
        HwAction::SetLevel(ControlLine::DataCommand, true),
        HwAction::SetLevel(ControlLine::ChipSelect, false),
        HwAction::WriteLayer(LayerKind::Secondary),
        HwAction::SetLevel(ControlLine::DataCommand, false),
        // transfer complete
        HwAction::WaitBusy(true),
        // power on display
        HwAction::Write2(0x04, 0x04),
        HwAction::WaitBusy(false),
        // display refresh; the final busy assertion marks completion
        HwAction::Write2(0x12, 0x12),
        HwAction::WaitBusy(true),
    ]
}

/// The full power-down sequence (Active -> Idle): deep sleep gated on the
/// busy line, tri-state the reset line so the panel cannot be back-powered,
/// drive the remaining outputs low, configure the busy line's resting state,
/// settle, and unexport every line.
pub open spec fn power_off_seq() -> Seq<HwAction> {
    seq![
        // deep sleep
        HwAction::Write2(0x02, 0x02),
        HwAction::WaitBusy(true),
        HwAction::SetDirection(ControlLine::Reset, LineDirection::Input),
        HwAction::SetLevel(ControlLine::ChipSelect, false),
        HwAction::SetLevel(ControlLine::DataCommand, false),
        HwAction::SetLevel(ControlLine::Power, false),
        HwAction::SetDirection(ControlLine::Busy, LineDirection::OutputLow),
        HwAction::SleepMs(150),
        // cleanup obligation: every line is unexported
        HwAction::Unexport(ControlLine::Power),
        HwAction::Unexport(ControlLine::Reset),
        HwAction::Unexport(ControlLine::ChipSelect),
        HwAction::Unexport(ControlLine::DataCommand),
        HwAction::Unexport(ControlLine::Busy),
    ]
}

/// The best-effort cleanup after a failed power-up: unexport every line, in
/// the same order the power-down sequence does.
pub open spec fn release_lines_seq() -> Seq<HwAction> {
    seq![
        HwAction::Unexport(ControlLine::Power),
        HwAction::Unexport(ControlLine::Reset),
        HwAction::Unexport(ControlLine::ChipSelect),
        HwAction::Unexport(ControlLine::DataCommand),
        HwAction::Unexport(ControlLine::Busy),
    ]
}

/// Law: the power-up sequence exports every control line.
pub proof fn lemma_power_on_exports_every_line(g: Geometry, temp_code: u8)
    ensures
        forall|l: ControlLine| #[trigger] power_on_seq(g, temp_code).contains(HwAction::Export(l)),
{
    assert forall|l: ControlLine| #[trigger] power_on_seq(g, temp_code).contains(HwAction::Export(l)) by {
        let s = power_on_seq(g, temp_code);
        match l {
            ControlLine::Power => { assert(s[5] == HwAction::Export(l)); }
            ControlLine::Reset => { assert(s[6] == HwAction::Export(l)); }
            ControlLine::ChipSelect => { assert(s[7] == HwAction::Export(l)); }
            ControlLine::DataCommand => { assert(s[8] == HwAction::Export(l)); }
            ControlLine::Busy => { assert(s[9] == HwAction::Export(l)); }
        }
    }
}

/// Law: the power-down sequence unexports every control line, so a session
/// that ends through `power_off` leaks no exported line.
pub proof fn lemma_power_off_releases_every_line()
    ensures
        forall|l: ControlLine| #[trigger] power_off_seq().contains(HwAction::Unexport(l)),
{
    assert forall|l: ControlLine| #[trigger] power_off_seq().contains(HwAction::Unexport(l)) by {
        let s = power_off_seq();
        match l {
            ControlLine::Power => { assert(s[8] == HwAction::Unexport(l)); }
            ControlLine::Reset => { assert(s[9] == HwAction::Unexport(l)); }
            ControlLine::ChipSelect => { assert(s[10] == HwAction::Unexport(l)); }
            ControlLine::DataCommand => { assert(s[11] == HwAction::Unexport(l)); }
            ControlLine::Busy => { assert(s[12] == HwAction::Unexport(l)); }
        }
    }
}

/// Law: the failed-power-up cleanup also unexports every control line, so
/// the error exit path leaks no exported line either.
pub proof fn lemma_release_lines_releases_every_line()
    ensures
        forall|l: ControlLine| #[trigger] release_lines_seq().contains(HwAction::Unexport(l)),
{
    assert forall|l: ControlLine| #[trigger] release_lines_seq().contains(HwAction::Unexport(l)) by {
        let s = release_lines_seq();
        match l {
            ControlLine::Power => { assert(s[0] == HwAction::Unexport(l)); }
            ControlLine::Reset => { assert(s[1] == HwAction::Unexport(l)); }
            ControlLine::ChipSelect => { assert(s[2] == HwAction::Unexport(l)); }
            ControlLine::DataCommand => { assert(s[3] == HwAction::Unexport(l)); }
            ControlLine::Busy => { assert(s[4] == HwAction::Unexport(l)); }
        }
    }
}

} // verus!
