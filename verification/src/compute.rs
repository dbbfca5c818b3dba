//! The compute-pipeline core: pass declaration, configuration building,
//! per-buffer ping-pong tracking, and the per-frame dispatch driver.

pub mod builder;
pub mod driver;
pub mod multipass;
