//! Discovery of the display modes a GPU is currently driving.
//!
//! The library walks an in-memory view of one GPU's display resource
//! graph (connectors, encoders, CRTCs and their modes) and resolves,
//! for every connected connector, the mode that is being scanned out,
//! falling back to the connector's native mode when the live path does
//! not expose one.  Opening a device and taking the snapshot of its
//! resource graph is the caller's business; the resolution rules live
//! here.

pub mod device;
pub mod loglevel;
pub mod resolve;
