//! The in-memory view of one GPU's display resource graph, and the
//! errors a resolution pass over it can report.

use vstd::prelude::*;

verus! {

/// A display timing descriptor; only its pixel size is consumed here.
#[derive(Clone, Copy, Debug, PartialEq, Eq, Structural)]
pub struct Mode {
    pub width: u16,
    pub height: u16,
}

/// The connection state a connector reports.
#[derive(Clone, Copy, Debug, PartialEq, Eq, Structural)]
pub enum ConnectorState {
    Connected,
    Disconnected,
    Unknown,
}

/// One physical video output of the GPU.
#[derive(Clone, Debug)]
pub struct ConnectorInfo {
    /// Whether a display is attached.
    pub state: ConnectorState,
    /// The encoder currently bound to this connector, if any.
    pub current_encoder: Option<u32>,
    /// Interface-type code of the port (for diagnostics only).
    pub interface: u32,
    /// The modes the connector advertises; index 0 is its native mode.
    pub modes: Vec<Mode>,
}

/// The hardware stage linking a connector to a display controller.
#[derive(Clone, Copy, Debug)]
pub struct EncoderInfo {
    /// The CRTC currently feeding this encoder, if any.
    pub crtc: Option<u32>,
}

/// A display controller, scanning out at most one mode right now.
#[derive(Clone, Copy, Debug)]
pub struct CrtcInfo {
    /// The mode currently being scanned out, if any.
    pub mode: Option<Mode>,
}

/// The view of one GPU's control interface that a resolution pass
/// reads: the connector handles its resource set advertises, and the
/// record each kind of handle resolves to.
///
/// A failing query is part of the view: `resource_connectors` is `None`
/// when the resource set itself cannot be fetched, and a handle absent
/// from one of the three tables is a handle the device fails to
/// resolve.  A handle listed twice resolves to its first entry.
#[derive(Clone, Debug)]
pub struct Device {
    /// The connector handles of the device's resource set, in
    /// enumeration order, or `None` when fetching the set fails.
    pub resource_connectors: Option<Vec<u32>>,
    /// What each connector handle resolves to.
    pub connectors: Vec<(u32, ConnectorInfo)>,
    /// What each encoder handle resolves to.
    pub encoders: Vec<(u32, EncoderInfo)>,
    /// What each CRTC handle resolves to.
    pub crtcs: Vec<(u32, CrtcInfo)>,
}

/// Why a resolution pass, or the resolution of one connector, failed.
#[derive(Clone, Copy, Debug, PartialEq, Eq, Structural)]
pub enum ResolveError {
    /// The device's resource-handle set could not be retrieved; the
    /// whole pass over that device fails.
    ResourceFetch,
    /// A connector handle out of the device's own resource set could
    /// not be resolved; the whole pass over that device fails.
    ConnectorFetch,
    /// Resolution was asked of a connector that is not connected.
    NotConnected,
    /// The connector's bound encoder could not be resolved; only this
    /// connector fails.
    EncoderFetch,
    /// The encoder's bound CRTC could not be resolved; only this
    /// connector fails.
    CrtcFetch,
    /// The connector advertises no mode to fall back to.
    NoModes,
}

} // verus!
