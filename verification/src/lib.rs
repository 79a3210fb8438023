//! Guest-side driver logic for a paravirtualised socket device.
//!
//! Connections are byte streams between (context id, port) endpoints. The
//! library covers the wire header, the per-connection credit accounting, the
//! decoding and classification of completed receive buffers, and the driver
//! that ties them to a device reached through the [`transport`] traits.

pub mod codec;
pub mod connection;
pub mod driver;
pub mod protocol;
pub mod transport;
pub mod wire;

pub use codec::read_header_and_body;
pub use connection::{
    ConnectionInfo, DisconnectReason, VsockBufferStatus, VsockEvent, VsockEventType,
};
pub use driver::{classify, decode_completion, VirtIOSocket};
pub use protocol::{SocketError, VirtioVsockHdr, VirtioVsockOp, VsockAddr};
pub use transport::{DeviceError, Transport, VirtQueue, VirtioVsockConfig};
