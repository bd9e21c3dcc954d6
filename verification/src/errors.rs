use vstd::prelude::*;

verus! {

/// The protocol phase in which a hardware fault was observed, so that an
/// initialization failure can be told apart from a transfer or a shutdown
/// failure.
#[derive(Clone, Copy, Debug, PartialEq, Eq, Structural)]
pub enum ProtocolPhase {
    Initialization,
    Transfer,
    Shutdown,
}

/// Every failure the driver core can report.
#[derive(Clone, Copy, Debug, PartialEq, Eq, Structural)]
pub enum EinkError {
    /// The caller supplied data whose size disagrees with the configured
    /// geometry; a programmer error, failed fast with no recovery attempted.
    DimensionMismatch,
    /// The pixel source cannot be sampled at a required coordinate.
    PixelAccessError,
    /// A line or bus operation failed at the transport level, in the given
    /// protocol phase.  Not retried automatically.
    HardwareIoError(ProtocolPhase),
    /// A bounded busy-wait exceeded its configured bound.
    HardwareTimeout,
    /// A full refresh was requested before the minimum refresh interval had
    /// elapsed; executing it could permanently damage the panel.
    RefreshTooSoon,
}

impl EinkError {
    /// A short human-readable description of the failure.
    pub fn describe(&self) -> String {
        match self {
            EinkError::DimensionMismatch => "image dimensions disagree with the configured geometry".to_string(),
            EinkError::PixelAccessError => "pixel source could not be sampled".to_string(),
            EinkError::HardwareIoError(ProtocolPhase::Initialization) => "hardware I/O failure during initialization".to_string(),
            EinkError::HardwareIoError(ProtocolPhase::Transfer) => "hardware I/O failure during frame transfer".to_string(),
            EinkError::HardwareIoError(ProtocolPhase::Shutdown) => "hardware I/O failure during shutdown".to_string(),
            EinkError::HardwareTimeout => "busy line did not reach the expected state in time".to_string(),
            EinkError::RefreshTooSoon => "refresh requested before the minimum refresh interval elapsed".to_string(),
        }
    }
}

} // verus!
