//! Interactive screen-region selection.
//!
//! The library owns the logic of a screen-capture overlay: a pointer-driven
//! selection state machine (press, drag, move, commit), the conversion of
//! window-local pixel coordinates to normalized device coordinates for
//! rendering and to global desktop pixels for capture, the construction of a
//! capture-region request from a committed selection, and the decision logic
//! of the post-commit capture / OCR / chat pipeline. The windowing host, the
//! GPU backend and the network services are collaborators around it.

pub mod capture;
pub mod chat;
pub mod geometry;
pub mod mapper;
pub mod ocr;
pub mod overlay;
pub mod screenshot;
pub mod selection;
pub mod text;
