//! A worker that turns prompt jobs from a message queue into tiled images.
//!
//! The crate holds the decisions of the worker: what is sent to the image
//! backend, how its reply becomes one tiled JPEG, what is published for a
//! job, and in which order deliveries are pulled, answered and acknowledged.
//! Reading from the broker and talking HTTP are left to the program that
//! drives [`worker::step`].

pub mod compose;
pub mod decimal;
pub mod history;
pub mod json;
pub mod protocol;
pub mod raster;
pub mod sdapi;
pub mod worker;
