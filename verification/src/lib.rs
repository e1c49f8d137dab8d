//! Capture-to-render core of a two-camera overlay viewer.
//!
//! Two video devices stream frames independently. Each stream is negotiated
//! to a pixel encoding the viewer understands, decoded into row-major RGB,
//! and parked in a single-slot store. A render tick takes the most recent
//! frame of each camera and overlays them through disjoint colour masks.
//!
//! The crate holds the decisions of that pipeline and proves them:
//!
//! * [`format`]: four-character codes, pixel encodings and frame geometry;
//! * [`negotiate`]: which encoding to ask a device for, and when to give up;
//! * [`store`]: the single-slot frame store, plain and lock-guarded;
//! * [`jpeg`]: the frame header of a JPEG buffer and the decoder's limits;
//! * [`capture`]: turning a delivered capture buffer into a frame;
//! * [`grid`]: where the cells of a byte grid lie;
//! * [`texture`]: frames laid out for the graphics API;
//! * [`compose`]: colour masks, flips and the draw calls of a tick;
//! * [`surface`]: the overlay, pixel by pixel;
//! * [`timing`]: the two latency figures of a render tick.
//!
//! Device access, windowing and GPU calls live with the caller.

pub mod capture;
pub mod compose;
pub mod format;
pub mod grid;
pub mod jpeg;
pub mod negotiate;
pub mod store;
pub mod surface;
pub mod texture;
pub mod timing;
