//! The decision logic of the overlay render loop: which vertices to draw
//! each frame, and how the post-commit capture / OCR / chat pipeline moves
//! from one fallible step to the next. The host performs the draw calls and
//! the collaborator calls and feeds each outcome back.

use crate::geometry::{
    rect_in_range, spec_normalize, normalize, CaptureRegion, Point, Rectangle,
};
use crate::mapper::{spec_to_ndc, to_ndc, NdcPoint};
use crate::selection::{state_wf, SelectionState};
use vstd::prelude::*;

verus! {

/// The corners of the selection rectangle in triangle-strip order:
/// top-left, bottom-left, top-right, bottom-right, so the two triangles
/// cover the rectangle without a visible seam.
pub open spec fn spec_strip_corner(r: Rectangle, i: int) -> Point {
    let n = spec_normalize(r);
    if i == 0 {
        n.top_left
    } else if i == 1 {
        Point { x: n.top_left.x, y: n.bottom_right.y }
    } else if i == 2 {
        Point { x: n.bottom_right.x, y: n.top_left.y }
    } else {
        n.bottom_right
    }
}

/// The four NDC vertices of one filled-quad draw call for the selection
/// rectangle, in triangle-strip order.
pub fn overlay_vertices(r: &Rectangle, width: u32, height: u32) -> (v: Vec<NdcPoint>)
    requires
        rect_in_range(*r),
        width >= 1,
        height >= 1,
    ensures
        v@.len() == 4,
        forall|i: int| 0 <= i < 4 ==> v@[i] == spec_to_ndc(spec_strip_corner(*r, i), width, height),
{
    let n = normalize(r);
    let top_left = n.top_left;
    let bottom_left = Point { x: n.top_left.x, y: n.bottom_right.y };
    let top_right = Point { x: n.bottom_right.x, y: n.top_left.y };
    let bottom_right = n.bottom_right;
    let mut v: Vec<NdcPoint> = Vec::new();
    v.push(to_ndc(&top_left, width, height));
    v.push(to_ndc(&bottom_left, width, height));
    v.push(to_ndc(&top_right, width, height));
    v.push(to_ndc(&bottom_right, width, height));
    v
}

/// What to draw this frame: the selection rectangle's vertices while one is
/// in progress or retained, nothing otherwise (the frame is only cleared).
pub fn frame_vertices(s: &SelectionState, width: u32, height: u32) -> (v: Option<Vec<NdcPoint>>)
    requires
        state_wf(*s),
        width >= 1,
        height >= 1,
    ensures
        v is Some <==> s.rect is Some,
        v matches Some(vs) ==> vs@.len() == 4 && (forall|i: int|
            0 <= i < 4 ==> vs@[i] == spec_to_ndc(spec_strip_corner(s.rect->0, i), width, height)),
{
    match &s.rect {
        Some(r) => Some(overlay_vertices(r, width, height)),
        None => None,
    }
}

/// One step of the post-commit pipeline. Each stage names the collaborator
/// the host must call next and carries that call's input.
#[derive(Clone, PartialEq, Eq, Debug)]
pub enum PipelineStage {
    /// Hand the region to the capture collaborator.
    Capture { region: CaptureRegion },
    /// Hand the captured image to the OCR collaborator.
    Ocr { image_path: String },
    /// Hand the extracted text to the chat collaborator.
    Chat { query: String },
    /// Close the overlay; a collaborator failure carries its logged message.
    Finished { failure: Option<String> },
}

/// How one stage's outcome decides the next stage: each success feeds the
/// next collaborator, any failure short-circuits to `Finished` with the
/// message to log, and the session closes either way.
pub open spec fn spec_advance(stage: PipelineStage, outcome: Result<String, String>) -> PipelineStage {
    match stage {
        PipelineStage::Capture { .. } => match outcome {
            Ok(path) => PipelineStage::Ocr { image_path: path },
            Err(e) => PipelineStage::Finished { failure: Some(e) },
        },
        PipelineStage::Ocr { .. } => match outcome {
            Ok(text) => PipelineStage::Chat { query: text },
            Err(e) => PipelineStage::Finished { failure: Some(e) },
        },
        PipelineStage::Chat { .. } => match outcome {
            Ok(_) => PipelineStage::Finished { failure: None },
            Err(e) => PipelineStage::Finished { failure: Some(e) },
        },
        PipelineStage::Finished { failure } => PipelineStage::Finished { failure },
    }
}

/// Advance the post-commit pipeline by one collaborator outcome.
pub fn advance_pipeline(stage: PipelineStage, outcome: Result<String, String>) -> (next:
    PipelineStage)
    ensures
        next == spec_advance(stage, outcome),
{
    match stage {
        PipelineStage::Capture { region: _ } => match outcome {
            Ok(path) => PipelineStage::Ocr { image_path: path },
            Err(e) => PipelineStage::Finished { failure: Some(e) },
        },
        PipelineStage::Ocr { image_path: _ } => match outcome {
            Ok(text) => PipelineStage::Chat { query: text },
            Err(e) => PipelineStage::Finished { failure: Some(e) },
        },
        PipelineStage::Chat { query: _ } => match outcome {
            Ok(_) => PipelineStage::Finished { failure: None },
            Err(e) => PipelineStage::Finished { failure: Some(e) },
        },
        PipelineStage::Finished { failure } => PipelineStage::Finished { failure },
    }
}

} // verus!
