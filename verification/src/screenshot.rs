//! The capture artifact's place on disk: one PNG per display, named by the
//! display's identifier. The capture primitive itself lives with the host.

use crate::ocr::spec_content_type;
use crate::text::{spec_decimal, u32_decimal};
use vstd::prelude::*;

verus! {

/// The screen-capture step; the pixel-capture primitive is a collaborator
/// of the host, so only the artifact naming lives here.
pub struct Screenshot;

impl Screenshot {
    /// The path a captured image is written to: a PNG named by the display
    /// identifier the region was captured from.
    pub fn capture_file_path(display_id: u32) -> (r: String)
        ensures
            r@ == "target/rectangle_"@ + spec_decimal(display_id as nat) + ".png"@,
    {
        let mut s: String = String::from_str("target/rectangle_");
        let digits: String = u32_decimal(display_id);
        s.append(digits.as_str());
        s.append(".png");
        proof {
            assert(s@ =~= "target/rectangle_"@ + spec_decimal(display_id as nat) + ".png"@);
        }
        s
    }
}

/// The capture artifact's name always carries a format the OCR stage
/// accepts.
pub proof fn lemma_capture_path_supported(display_id: u32)
    ensures
        spec_content_type("target/rectangle_"@ + spec_decimal(display_id as nat) + ".png"@)
            is Some,
{
    reveal_strlit(".png");
    let path = "target/rectangle_"@ + spec_decimal(display_id as nat) + ".png"@;
    assert(path.subrange(path.len() - 4, path.len() as int) =~= ".png"@);
}

} // verus!
