//! The records that flow through the pipeline: one detected face candidate,
//! and the normalized result handed from the worker to the driver.

use vstd::prelude::*;

verus! {

/// One detected face: its bounding box in pixel coordinates and the
/// detector's confidence, truncated to an integer as the selection
/// policy compares it.
#[derive(Clone, Copy, Debug, PartialEq, Eq, Structural)]
pub struct FaceCandidate {
    pub x: i32,
    pub y: i32,
    pub width: u32,
    pub height: u32,
    pub score: i32,
}

/// The result of one capture-detect iteration. Coordinates `center_x`,
/// `center_y` place the bounding-box center in a frame whose origin is the
/// frame center (positive x right, positive y down). The zero-valued record
/// means "no face found this frame" and is a valid value, not an error.
#[derive(Clone, Copy, Debug, PartialEq, Eq, Structural)]
pub struct WebcamFacialData {
    pub center_x: i32,
    pub center_y: i32,
    pub x: i32,
    pub y: i32,
    pub width: i32,
    pub height: i32,
    pub score: i32,
}

/// The outward event: one drained record, republished to the host
/// application, one event per drained record and in arrival order.
#[derive(Clone, Copy, Debug, PartialEq, Eq, Structural)]
pub struct WebcamFacialDataEvent(pub WebcamFacialData);

/// The zero-valued "no face" record.
pub open spec fn zero_data() -> WebcamFacialData {
    WebcamFacialData { center_x: 0, center_y: 0, x: 0, y: 0, width: 0, height: 0, score: 0 }
}

impl Default for WebcamFacialData {
    /// The default record is the zero-valued "no face" record.
    fn default() -> (r: Self)
        ensures
            r == zero_data(),
    {
        WebcamFacialData { center_x: 0, center_y: 0, x: 0, y: 0, width: 0, height: 0, score: 0 }
    }
}

} // verus!
