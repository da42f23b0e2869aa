//! Player-layer values: video gravity.

use vstd::prelude::*;

use crate::text::str_eq;

verus! {

/// How a player layer fits video into its bounds.
#[derive(Debug, Clone, Copy, PartialEq, Eq, Hash, Structural)]
#[non_exhaustive]
pub enum VideoGravity {
    /// Fit, preserving the aspect ratio.
    ResizeAspect,
    /// Fill, preserving the aspect ratio.
    ResizeAspectFill,
    /// Stretch to fill.
    Resize,
}

impl VideoGravity {
    /// The bridge's raw name of the gravity.
    pub open spec fn raw_name(self) -> Seq<char> {
        match self {
            VideoGravity::ResizeAspect => "resize_aspect"@,
            VideoGravity::ResizeAspectFill => "resize_aspect_fill"@,
            VideoGravity::Resize => "resize"@,
        }
    }

    /// The gravity a raw name stands for; any other name reads as `ResizeAspect`.
    pub open spec fn spec_from_raw(raw: Seq<char>) -> Self {
        if raw == "resize"@ {
            VideoGravity::Resize
        } else if raw == "resize_aspect_fill"@ {
            VideoGravity::ResizeAspectFill
        } else {
            VideoGravity::ResizeAspect
        }
    }

    /// The bridge's raw name.
    pub fn as_raw(self) -> (r: &'static str)
        ensures
            r@ == self.raw_name(),
    {
        match self {
            VideoGravity::ResizeAspect => "resize_aspect",
            VideoGravity::ResizeAspectFill => "resize_aspect_fill",
            VideoGravity::Resize => "resize",
        }
    }

    /// Decodes a raw name; a name it does not know reads as `ResizeAspect`.
    pub fn from_raw(raw: &str) -> (r: Self)
        ensures
            r == Self::spec_from_raw(raw@),
    {
        if str_eq(raw, "resize") {
            VideoGravity::Resize
        } else if str_eq(raw, "resize_aspect_fill") {
            VideoGravity::ResizeAspectFill
        } else {
            VideoGravity::ResizeAspect
        }
    }
}

/// Decoding the raw name of a gravity gives the gravity back.
pub proof fn lemma_video_gravity_raw_round_trip(g: VideoGravity)
    ensures
        VideoGravity::spec_from_raw(g.raw_name()) == g,
{
    reveal_strlit("resize_aspect");
    reveal_strlit("resize_aspect_fill");
    reveal_strlit("resize");
    assert("resize_aspect"@.len() != "resize"@.len());
    assert("resize_aspect"@.len() != "resize_aspect_fill"@.len());
    assert("resize_aspect_fill"@.len() != "resize"@.len());
}

} // verus!
