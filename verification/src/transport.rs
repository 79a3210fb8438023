//! What the driver asks of the device: a transport and its queues.
//!
//! The driver is generic over both traits. An implementation binds them to
//! real device memory, or to a stand-in for tests.

use vstd::prelude::*;

verus! {

/// Index of the receive queue.
pub const RX_QUEUE_IDX: u16 = 0;

/// Index of the transmit queue.
pub const TX_QUEUE_IDX: u16 = 1;

/// Index of the event queue.
pub const EVENT_QUEUE_IDX: u16 = 2;

/// Number of descriptors in each queue, and of receive buffers.
pub const QUEUE_SIZE: usize = 8;

/// Size in bytes of each receive buffer.
pub const RX_BUFFER_SIZE: usize = 512;

/// The device's configuration space: the two halves of the guest's context
/// identifier.
#[derive(Copy, Clone, Debug, PartialEq, Eq, Structural)]
pub struct VirtioVsockConfig {
    pub guest_cid_low: u32,
    pub guest_cid_high: u32,
}

/// A failure of the transport or of a queue, with the code it gave.
#[derive(Copy, Clone, Debug, PartialEq, Eq, Structural)]
pub struct DeviceError {
    pub code: u32,
}

/// The path to the device.
pub trait Transport {
    /// Starts initialisation and returns the feature bits the device offers.
    fn read_device_features(&mut self) -> u64;

    /// Tells the device which feature bits the driver accepts.
    fn write_driver_features(&mut self, driver_features: u64);

    /// Reads the configuration space.
    fn config_space(&self) -> Result<VirtioVsockConfig, DeviceError>;

    /// Completes initialisation.
    fn finish_init(&mut self);

    /// Tells the device that the queue `queue` has new entries.
    fn notify(&mut self, queue: u16);

    /// Unbinds the queue `queue` from the device.
    fn queue_unset(&mut self, queue: u16);
}

/// One queue shared with the device that is reached through `T`.
pub trait VirtQueue<T: Transport>: Sized {
    /// Sets up the queue with index `idx` on the device.
    fn new(transport: &mut T, idx: u16) -> Result<Self, DeviceError>;

    /// Lends `buffer` to the device to write into, and returns the token
    /// under which it will come back.
    fn add_recv(&mut self, buffer: &mut [u8; 512]) -> Result<u16, DeviceError>;

    /// The token of the oldest completed entry, if there is one.
    fn peek_used(&self) -> Option<u16>;

    /// Takes back the completed entry `token`, whose buffer is `buffer`, and
    /// returns the number of bytes that the device wrote.
    fn pop_used(&mut self, token: u16, buffer: &mut [u8; 512]) -> Result<u32, DeviceError>;

    /// Whether the device wants to be told of new entries.
    fn should_notify(&self) -> bool;

    /// Hands one packet to the device and waits until the device has taken
    /// it.
    fn add_notify_wait_pop(
        &mut self,
        header: &[u8],
        body: &[u8],
        transport: &mut T,
    ) -> Result<u32, DeviceError>;
}

} // verus!
