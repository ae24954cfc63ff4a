//! Backend-neutral contracts for transfer hardware: devices, buffers, buffer
//! locations, submissions and fences.
use vstd::prelude::*;

use crate::error::GhostError;

verus! {

/// A device capable of performing data transfers (CPU memory, GPU memory or
/// disk I/O). Implemented by concrete backends.
pub trait TransferDevice: Send + Sync {
    /// The type of this transfer device.
    fn device_type(&self) -> TransferDeviceType;

    /// Maximum single transfer size in bytes.
    fn max_transfer_size(&self) -> usize;

    /// Whether this device supports asynchronous transfers.
    fn supports_async(&self) -> bool;
}

/// Types of transfer devices in the system.
#[derive(Debug, Clone, Copy, PartialEq, Eq, Structural, Hash)]
pub enum TransferDeviceType {
    /// Standard CPU memory (RAM).
    CpuMemory,
    /// GPU local memory (VRAM, not directly accessible from CPU).
    GpuLocal,
    /// GPU host-visible memory (mapped CPU-GPU shared memory).
    GpuHostVisible,
    /// Disk I/O (block device or file system).
    DiskIo,
}

/// A buffer that can be the source or destination of a transfer. Implemented by
/// concrete backends.
pub trait TransferBuffer: Send + Sync {
    /// Size of the buffer in bytes.
    fn size(&self) -> usize;

    /// Whether the buffer is host-mapped (CPU-accessible).
    fn is_mapped(&self) -> bool;
}

/// Location of a buffer: the source or destination of a transfer. The address
/// or handle is opaque here; only the concrete device interprets it.
#[derive(Debug, Clone, Copy, PartialEq, Eq, Structural)]
pub enum BufferLocation {
    /// Host (CPU) memory location.
    Host {
        /// Address of the host memory region.
        ptr: usize,
        /// Size of the host memory region.
        size: usize,
    },
    /// Device (GPU) memory location.
    Device {
        /// Opaque device handle (e.g. a buffer or memory handle).
        handle: u64,
        /// Offset within the device allocation.
        offset: u64,
    },
}

/// A transfer submission: the unit of work handed to the DMA pipeline.
#[derive(Debug, Clone, Copy, PartialEq, Eq, Structural)]
pub struct TransferSubmission {
    /// Source buffer location.
    pub source: BufferLocation,
    /// Destination buffer location.
    pub destination: BufferLocation,
    /// Number of bytes to transfer.
    pub size: usize,
    /// Fence to signal when the transfer completes, if any.
    pub fence_id: Option<u64>,
}

/// A synchronisation primitive signalled when a transfer completes.
/// Implemented by concrete backends.
pub trait TransferFence: Send + Sync {
    /// Whether the fence has been signalled (non-blocking).
    fn is_signaled(&self) -> bool;

    /// Wait for the fence to be signalled, up to `timeout`.
    fn wait(&self, timeout: std::time::Duration) -> Result<(), GhostError>;
}

} // verus!
