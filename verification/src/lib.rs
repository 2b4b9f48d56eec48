//! Core state model of a small real-time rendering harness: a first-person
//! camera driven by keyboard and pointer input, a presentation surface whose
//! configuration survives window resizes, and the per-frame protocol that
//! renders, updates, and requests the next redraw.
//!
//! The library carries every real-valued quantity (angles and coordinates)
//! as an opaque 32-bit word ([`scalar::Scalar`]); the numeric work on
//! those words, along with all GPU and windowing calls, lives in the
//! unverified shell around the library. Everything the harness decides —
//! which keys move the camera and by what intent, when the cursor is
//! captured, how a resize propagates, which surface format is chosen, what a
//! failed frame does next, and the one-frame latency of the uploaded camera
//! matrix — is stated in contracts here and proved.

pub mod app;
pub mod camera;
pub mod input;
pub mod renderer;
pub mod scalar;
pub mod surface;
