//! Webcam face tracking: a capture-and-detect worker pipeline with a
//! single-slot handoff channel and a start/stop lifecycle state machine.
//!
//! The pure parts of the pipeline — YUYV to RGB conversion and face
//! candidate selection — are verified, as is the lifecycle state machine
//! the driver and worker follow. Camera capture, model loading and the
//! host engine's scheduling live outside this crate.

pub mod channel;
pub mod controller;
pub mod convert;
pub mod data;
pub mod gray;
pub mod lifecycle;
pub mod select;

use vstd::prelude::*;
use crate::controller::WebcamFacialController;

verus! {

/// Configuration of one plugin installation, supplied by the embedder.
pub struct WebcamFacialPlugin {
    pub config_webcam_device: String,
    pub config_webcam_width: u32,
    pub config_webcam_height: u32,
    pub config_webcam_framerate: u32,
    pub config_webcam_autostart: bool,
}

impl WebcamFacialPlugin {
    /// The controller this plugin installs at startup, carrying the
    /// configuration and honouring the autostart setting.
    pub fn controller(&self) -> (c: WebcamFacialController)
        ensures
            c.control == self.config_webcam_autostart,
            c.config_device@ == self.config_webcam_device@,
            c.config_width == self.config_webcam_width,
            c.config_height == self.config_webcam_height,
            c.config_framerate == self.config_webcam_framerate,
    {
        WebcamFacialController::new(
            self.config_webcam_device.clone(),
            self.config_webcam_width,
            self.config_webcam_height,
            self.config_webcam_framerate,
            self.config_webcam_autostart,
        )
    }
}

} // verus!
