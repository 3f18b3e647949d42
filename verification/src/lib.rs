//! Core logic of a fixed-duration audio segment recorder.
//!
//! Live capture is split into fixed-length segments. Each segment is encoded
//! as a linear-PCM container file, alternating between two output slots so
//! that finalizing and uploading one segment never collides with the path the
//! next segment is being written to. Completed segments are handed to an
//! upload path whose responses are appended to a shared log.
//!
//! This crate holds the verified core: the stream/container format mapping,
//! the byte-exact segment encoder, the non-blocking sample sink, the slot
//! rotation state machine, and the response log. Device I/O, the hardware
//! stream, timing, and the actual upload live outside the library and drive
//! it with plain values.

pub mod config;
pub mod rotation;
pub mod sink;
pub mod translog;
pub mod wav;
