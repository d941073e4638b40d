//! Core logic of a single-camera preview and capture service: splitting the
//! camera's MJPEG output into frames, fanning the latest frame out to viewers,
//! exclusive ownership of the device, the capture sequence, and the HTTP
//! routes that serve frames and stored photos.

pub mod frame;
pub mod hub;
pub mod preview;
pub mod lease;
pub mod supervisor;
pub mod capture;
pub mod http;
