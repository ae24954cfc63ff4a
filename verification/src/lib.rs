//! GhostPages core library: chunk identity and lifecycle, transfer, DMA and
//! I/O scheduling, the event taxonomy and its ordering checks, hotness
//! analysis, compression, and the command-line parsing rules.
pub mod cli;
pub mod clock;
pub mod compress;
pub mod dma_pipeline;
pub mod emitter;
pub mod error;
pub mod event_multiplexer;
pub mod events;
pub mod hardware;
pub mod hotness;
pub mod hotness_confidence;
pub mod hotness_history;
pub mod hotness_provider;
pub mod hotness_summary;
pub mod invariant_registry;
pub mod io_abstraction;
pub mod io_events;
pub mod state;
pub mod state_ownership;
pub mod time;
pub mod trace;
pub mod tracing_bridge;
pub mod transfer;
pub mod types;
pub mod workload;

pub use emitter::EventEmitter;
pub use error::{GhostError, GhostResult};
pub use events::{BackendHealth, Event, EventRecord, InvariantSeverity};
pub use io_abstraction::{IoCompletion, IoRequest, IoScheduler};
pub use io_events::{IoEvent, IoOperation};
pub use state::{ChunkState, PressureState, StateMachine};
pub use time::{DeterministicClock, RealTimeProvider, TimeProvider};
pub use trace::{EvictionReason, TraceEvent};
pub use transfer::{TransferJob, TransferPriority, TransferState};
pub use types::{ChunkId, ChunkMeta, CompressionAlgorithm, TierId};
