use vstd::prelude::*;
use crate::errors::EinkError;
use crate::frame::FrameBuffer;
use crate::frame::LayerKind;
use crate::geometry::Geometry;
use crate::protocol::ControlLine;
use crate::protocol::HwAction;
use crate::protocol::LineDirection;
use crate::protocol::power_on_seq;
use crate::protocol::power_off_seq;
use crate::protocol::release_lines_seq;
use crate::protocol::send_image_seq;

verus! {

/// A full refresh must not run more than once per this interval for a given
/// physical panel; refreshing more often risks permanent damage.
pub const MIN_REFRESH_INTERVAL_MS: u64 = 180000;

/// The coarse protocol state: unpowered with no line held, or powered and
/// initialized with all lines held.
#[derive(Clone, Copy, Debug, PartialEq, Eq, Structural)]
pub enum PanelState {
    Idle,
    Active,
}

/// Whether spending the refresh budget at `now_ms` respects the minimum
/// refresh interval since the previous refresh (if any).  A clock that ran
/// backwards never allows a refresh.
pub open spec fn refresh_allowed(last_refresh_ms: Option<u64>, now_ms: u64) -> bool {
    match last_refresh_ms {
        Option::None => true,
        Option::Some(t) => now_ms >= t + MIN_REFRESH_INTERVAL_MS,
    }
}

/// The panel-protocol state machine.  It owns no hardware handle itself: it
/// plans scripts of `HwAction` steps and tracks the coarse session state
/// and the refresh budget, while an integration layer executes the scripts
/// against one exclusively-owned bus and line set and reports completion
/// back through the `*_complete` transitions.
#[derive(Clone, Copy, Debug)]
pub struct PanelController {
    pub geometry: Geometry,
    pub state: PanelState,
    /// Timestamp at which the refresh budget was last spent.
    pub last_refresh_ms: Option<u64>,
}

impl PanelController {
    pub open spec fn wf(self) -> bool {
        self.geometry.wf()
    }

    /// A quiescent controller for the given panel geometry.
    pub fn new(geometry: Geometry) -> (r: PanelController)
        requires
            geometry.wf(),
        ensures
            r.geometry == geometry,
            r.state == PanelState::Idle,
            r.last_refresh_ms is None,
            r.wf(),
    {
        PanelController { geometry, state: PanelState::Idle, last_refresh_ms: None }
    }

    pub fn is_active(&self) -> (r: bool)
        ensures
            r == (self.state == PanelState::Active),
    {
        match self.state {
            PanelState::Active => true,
            PanelState::Idle => false,
        }
    }

    /// Plans the Idle -> Active power-up.  `temp_code` is the temperature
    /// compensation code; the caller derives it from an actual temperature
    /// reading.  The script must run to completion before
    /// `power_on_complete`; if executing it fails, the executor must run
    /// `release_lines_script` so no exported line leaks, and propagate the
    /// failure.
    pub fn power_on_script(&self, temp_code: u8) -> (r: Vec<HwAction>)
        requires
            self.state == PanelState::Idle,
        ensures
            r@ == power_on_seq(self.geometry, temp_code),
    {
        let mut r: Vec<HwAction> = Vec::new();
        r.push(HwAction::SetDirection(ControlLine::Power, LineDirection::OutputHigh));
        r.push(HwAction::SetDirection(ControlLine::Reset, LineDirection::OutputLow));
        r.push(HwAction::SetDirection(ControlLine::ChipSelect, LineDirection::OutputLow));
        r.push(HwAction::SetDirection(ControlLine::DataCommand, LineDirection::OutputLow));
        r.push(HwAction::SetDirection(ControlLine::Busy, LineDirection::Input));
        r.push(HwAction::Export(ControlLine::Power));
        r.push(HwAction::Export(ControlLine::Reset));
        r.push(HwAction::Export(ControlLine::ChipSelect));
        r.push(HwAction::Export(ControlLine::DataCommand));
        r.push(HwAction::Export(ControlLine::Busy));
        r.push(HwAction::SleepMs(5));
        r.push(HwAction::SetLevel(ControlLine::Reset, true));
        r.push(HwAction::SleepMs(5));
        r.push(HwAction::SetLevel(ControlLine::Reset, false));
        r.push(HwAction::SleepMs(10));
        r.push(HwAction::SetLevel(ControlLine::Reset, true));
        r.push(HwAction::SleepMs(5));
        r.push(HwAction::Write2(0x00, 0x0E));
        r.push(HwAction::SleepMs(5));
        r.push(HwAction::Write2(0xE5, temp_code));
        let activation: u8 = if self.geometry.width == 400 && self.geometry.height == 300 {
            0xE0
        } else {
            0xCF
        };
        r.push(HwAction::Write2(activation, 0x02));
        r.push(HwAction::Write3(0x00, 0x0F, 0x89));
        proof {
            assert(r@ =~= power_on_seq(self.geometry, temp_code));
        }
        r
    }

    /// Records that the power-up script ran to completion: the session is
    /// now active.
    pub fn power_on_complete(&mut self)
        requires
            old(self).state == PanelState::Idle,
        ensures
            final(self).state == PanelState::Active,
            final(self).geometry == old(self).geometry,
            final(self).last_refresh_ms == old(self).last_refresh_ms,
    {
        self.state = PanelState::Active;
    }

    /// Plans the best-effort cleanup after a failed power-up: every control
    /// line is unexported, so not even the error exit path leaks a line.
    pub fn release_lines_script(&self) -> (r: Vec<HwAction>)
        ensures
            r@ == release_lines_seq(),
    {
        let mut r: Vec<HwAction> = Vec::new();
        r.push(HwAction::Unexport(ControlLine::Power));
        r.push(HwAction::Unexport(ControlLine::Reset));
        r.push(HwAction::Unexport(ControlLine::ChipSelect));
        r.push(HwAction::Unexport(ControlLine::DataCommand));
        r.push(HwAction::Unexport(ControlLine::Busy));
        proof {
            assert(r@ =~= release_lines_seq());
        }
        r
    }

    /// Plans one frame transfer and refresh, valid only while active.  The
    /// frame must match the configured geometry, else `DimensionMismatch`;
    /// a refresh within the minimum refresh interval of the previous one is
    /// refused with `RefreshTooSoon`, never executed silently.  On success
    /// the refresh budget is spent at `now_ms` immediately, so a transfer
    /// that later fails on the wire still counts against the budget.
    pub fn send_image_script(&mut self, frame: &FrameBuffer, now_ms: u64) -> (r: Result<
        Vec<HwAction>,
        EinkError,
    >)
        requires
            old(self).state == PanelState::Active,
        ensures
            final(self).state == old(self).state,
            final(self).geometry == old(self).geometry,
            frame.geometry != old(self).geometry ==> (r matches Err(e) && e
                == EinkError::DimensionMismatch)
                && final(self).last_refresh_ms == old(self).last_refresh_ms,
            frame.geometry == old(self).geometry && !refresh_allowed(
                old(self).last_refresh_ms,
                now_ms,
            ) ==> (r matches Err(e) && e == EinkError::RefreshTooSoon)
                && final(self).last_refresh_ms == old(self).last_refresh_ms,
            frame.geometry == old(self).geometry && refresh_allowed(
                old(self).last_refresh_ms,
                now_ms,
            ) ==> (r matches Ok(script) && script@ == send_image_seq())
                && final(self).last_refresh_ms == Some(now_ms),
    {
        if frame.geometry.width != self.geometry.width || frame.geometry.height
            != self.geometry.height {
            return Err(EinkError::DimensionMismatch);
        }
        let allowed = match self.last_refresh_ms {
            None => true,
            Some(t) => now_ms >= t && now_ms - t >= MIN_REFRESH_INTERVAL_MS,
        };
        if !allowed {
            return Err(EinkError::RefreshTooSoon);
        }
        self.last_refresh_ms = Some(now_ms);
        let mut r: Vec<HwAction> = Vec::new();
        r.push(HwAction::Write1(0x10));
        r.push(HwAction::SetLevel(ControlLine::ChipSelect, true));
        r.push(HwAction::SetLevel(ControlLine::DataCommand, true));
        r.push(HwAction::SetLevel(ControlLine::ChipSelect, false));
        r.push(HwAction::WriteLayer(LayerKind::Primary));
        r.push(HwAction::SetLevel(ControlLine::DataCommand, false));
        r.push(HwAction::Write1(0x13));
        r.push(HwAction::SetLevel(ControlLine::ChipSelect, true));
        r.push(HwAction::SetLevel(ControlLine::DataCommand, true));
        r.push(HwAction::SetLevel(ControlLine::ChipSelect, false));
        r.push(HwAction::WriteLayer(LayerKind::Secondary));
        r.push(HwAction::SetLevel(ControlLine::DataCommand, false));
        r.push(HwAction::WaitBusy(true));
        r.push(HwAction::Write2(0x04, 0x04));
        r.push(HwAction::WaitBusy(false));
        r.push(HwAction::Write2(0x12, 0x12));
        r.push(HwAction::WaitBusy(true));
        proof {
            assert(r@ =~= send_image_seq());
        }
        Ok(r)
    }

    /// Plans the Active -> Idle power-down.  The executor must attempt every
    /// step even if an earlier one failed partially: unexporting the lines
    /// is the cleanup obligation that must not be skipped.
    pub fn power_off_script(&self) -> (r: Vec<HwAction>)
        requires
            self.state == PanelState::Active,
        ensures
            r@ == power_off_seq(),
    {
        let mut r: Vec<HwAction> = Vec::new();
        r.push(HwAction::Write2(0x02, 0x02));
        r.push(HwAction::WaitBusy(true));
        r.push(HwAction::SetDirection(ControlLine::Reset, LineDirection::Input));
        r.push(HwAction::SetLevel(ControlLine::ChipSelect, false));
        r.push(HwAction::SetLevel(ControlLine::DataCommand, false));
        r.push(HwAction::SetLevel(ControlLine::Power, false));
        r.push(HwAction::SetDirection(ControlLine::Busy, LineDirection::OutputLow));
        r.push(HwAction::SleepMs(150));
        r.push(HwAction::Unexport(ControlLine::Power));
        r.push(HwAction::Unexport(ControlLine::Reset));
        r.push(HwAction::Unexport(ControlLine::ChipSelect));
        r.push(HwAction::Unexport(ControlLine::DataCommand));
        r.push(HwAction::Unexport(ControlLine::Busy));
        proof {
            assert(r@ =~= power_off_seq());
        }
        r
    }

    /// Records that the power-down script ran to completion: the session is
    /// quiescent again and safe to leave unattended.  The refresh budget is
    /// kept: it protects the physical panel, not the session.
    pub fn power_off_complete(&mut self)
        requires
            old(self).state == PanelState::Active,
        ensures
            final(self).state == PanelState::Idle,
            final(self).geometry == old(self).geometry,
            final(self).last_refresh_ms == old(self).last_refresh_ms,
    {
        self.state = PanelState::Idle;
    }
}

} // verus!
