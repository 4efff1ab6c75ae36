//! Sessions with "mitch" sensor units over a short-range radio link.
//!
//! The crate holds every decision of the device subsystem and none of its
//! input or output. Work on the radio is described by requests that the
//! caller performs; what came of each request is handed back as a reply, and
//! the library answers with the next request or with the result.
pub mod app;
pub mod app_laws;
pub mod bluetooth;
pub mod event;
