//! Face candidate selection and normalization.
//!
//! From the detector's list of candidates, the one with the maximum score
//! wins (the first such one on ties); its bounding box is copied and its
//! center is re-expressed relative to the frame center. An empty list
//! yields the zero-valued "no face" record.

use vstd::prelude::*;
use crate::data::{FaceCandidate, WebcamFacialData, zero_data};

verus! {

/// The normalized record built from one chosen candidate:
/// `center_x = (width/2 + x) - frame_width/2`, and likewise for y.
pub open spec fn data_of(c: FaceCandidate, frame_width: u32, frame_height: u32) -> WebcamFacialData {
    WebcamFacialData {
        center_x: (c.width as int / 2 + c.x - frame_width as int / 2) as i32,
        center_y: (c.height as int / 2 + c.y - frame_height as int / 2) as i32,
        x: c.x,
        y: c.y,
        width: c.width as i32,
        height: c.height as i32,
        score: c.score,
    }
}

/// The candidate's fields fit the result record: its sides fit `i32` and
/// its centered coordinates do not overflow.
pub open spec fn candidate_in_range(c: FaceCandidate, frame_width: u32, frame_height: u32) -> bool {
    &&& c.width <= i32::MAX
    &&& c.height <= i32::MAX
    &&& i32::MIN <= c.width as int / 2 + c.x - frame_width as int / 2 <= i32::MAX
    &&& i32::MIN <= c.height as int / 2 + c.y - frame_height as int / 2 <= i32::MAX
}

/// Index `i` holds the winning candidate: no score is greater, and every
/// earlier candidate scores strictly less (ties go to the first).
pub open spec fn is_first_best(faces: Seq<FaceCandidate>, i: int) -> bool {
    &&& 0 <= i < faces.len()
    &&& forall|j: int| 0 <= j < faces.len() ==> (#[trigger] faces[j]).score <= faces[i].score
    &&& forall|j: int| 0 <= j < i ==> (#[trigger] faces[j]).score < faces[i].score
}

/// Select the best-scoring candidate and normalize it; the zero-valued
/// record when there is none. The result's score is the maximum score of
/// the list.
pub fn select_face(faces: &Vec<FaceCandidate>, frame_width: u32, frame_height: u32) -> (r:
    WebcamFacialData)
    requires
        forall|i: int|
            0 <= i < faces@.len() ==> candidate_in_range(
                #[trigger] faces@[i],
                frame_width,
                frame_height,
            ),
    ensures
        faces@.len() == 0 ==> r == zero_data(),
        faces@.len() > 0 ==> exists|i: int|
            is_first_best(faces@, i) && r == data_of(#[trigger] faces@[i], frame_width,
            frame_height),
        forall|j: int| 0 <= j < faces@.len() ==> (#[trigger] faces@[j]).score <= r.score,
{
    if faces.len() == 0 {
        return WebcamFacialData::default();
    }
    let mut best: usize = 0;
    let mut k: usize = 1;
    while k < faces.len()
        invariant
            0 < faces@.len(),
            best < k <= faces@.len(),
            forall|j: int| 0 <= j < k ==> (#[trigger] faces@[j]).score <= faces@[best as int].score,
            forall|j: int| 0 <= j < best ==> (#[trigger] faces@[j]).score < faces@[
                best as int
            ].score,
        decreases faces@.len() - k,
    {
        if faces[k].score > faces[best].score {
            best = k;
        }
        k = k + 1;
    }
    let c = faces[best];
    assert(candidate_in_range(c, frame_width, frame_height));
    let half_w: u32 = c.width / 2;
    let half_h: u32 = c.height / 2;
    let cx: i64 = half_w as i64 + c.x as i64 - (frame_width / 2) as i64;
    let cy: i64 = half_h as i64 + c.y as i64 - (frame_height / 2) as i64;
    let r = WebcamFacialData {
        center_x: cx as i32,
        center_y: cy as i32,
        x: c.x,
        y: c.y,
        width: c.width as i32,
        height: c.height as i32,
        score: c.score,
    };
    assert(is_first_best(faces@, best as int));
    assert(r == data_of(faces@[best as int], frame_width, frame_height));
    r
}

} // verus!
