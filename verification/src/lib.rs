//! Hands compressed bytes from a main thread to a worker, and decoded commands
//! and spent buffers back, through small bounded queues.
//!
//! [`serial_worker::SerialWorker`] holds both ends of the exchange in one value,
//! for a main loop and a worker that take turns on one thread.
//! [`demuxer::ThreadToMainDemuxer`] puts any worker behind the byte stream
//! interface that a codec reads from.
pub mod call_laws;
pub mod demuxer;
pub mod interface;
pub mod laws;
pub mod memory;
pub mod serial_worker;
pub mod stream_call_laws;
pub mod stream_laws;
pub mod threading;
