//! Asset-reader values: reader status and uncompressed video output settings.

use vstd::prelude::*;

verus! {

/// `AVAssetReaderStatus`.
#[derive(Debug, Clone, Copy, PartialEq, Eq, Hash, Structural)]
#[non_exhaustive]
pub enum AssetReaderStatus {
    /// Unknown.
    Unknown,
    /// Reading.
    Reading,
    /// Completed.
    Completed,
    /// Failed.
    Failed,
    /// Cancelled.
    Cancelled,
}

impl AssetReaderStatus {
    /// The value a raw bridge number stands for.
    pub open spec fn spec_from_raw(raw: i32) -> Self {
        if raw == 1 {
            AssetReaderStatus::Reading
        } else if raw == 2 {
            AssetReaderStatus::Completed
        } else if raw == 3 {
            AssetReaderStatus::Failed
        } else if raw == 4 {
            AssetReaderStatus::Cancelled
        } else {
            AssetReaderStatus::Unknown
        }
    }

    /// Decodes a raw bridge number.
    pub fn from_raw(raw: i32) -> (r: Self)
        ensures
            r == Self::spec_from_raw(raw),
    {
        match raw {
            1 => AssetReaderStatus::Reading,
            2 => AssetReaderStatus::Completed,
            3 => AssetReaderStatus::Failed,
            4 => AssetReaderStatus::Cancelled,
            _ => AssetReaderStatus::Unknown,
        }
    }
}

/// The reader status follows `AVAssetReaderStatus` numbering: 1 is reading,
/// 2 completed, 3 failed and 4 cancelled; every other number is unknown, so
/// two numbers that decode to the same known status are the same number.
pub proof fn lemma_reader_status_numbering(raw: i32, other: i32)
    ensures
        AssetReaderStatus::spec_from_raw(1) == AssetReaderStatus::Reading,
        AssetReaderStatus::spec_from_raw(2) == AssetReaderStatus::Completed,
        AssetReaderStatus::spec_from_raw(3) == AssetReaderStatus::Failed,
        AssetReaderStatus::spec_from_raw(4) == AssetReaderStatus::Cancelled,
        (raw < 1 || raw > 4) <==> AssetReaderStatus::spec_from_raw(raw) == AssetReaderStatus::Unknown,
        AssetReaderStatus::spec_from_raw(raw) == AssetReaderStatus::spec_from_raw(other)
            && AssetReaderStatus::spec_from_raw(raw) != AssetReaderStatus::Unknown ==> raw == other,
{
}

/// The four-character code `BGRA` (32-bit blue, green, red, alpha pixels), read
/// big-endian.
pub const PIXEL_FORMAT_BGRA: u32 = 0x4247_5241u32;

/// Builder for uncompressed video reader output settings.
#[derive(Debug, Clone, Copy, PartialEq, Eq, Structural)]
pub struct VideoOutputSettings {
    pixel_format: u32,
    width: Option<i32>,
    height: Option<i32>,
}

impl VideoOutputSettings {
    /// The pixel format, as a four-character code.
    pub closed spec fn spec_pixel_format(self) -> u32 {
        self.pixel_format
    }

    /// The requested width, if any.
    pub closed spec fn spec_width(self) -> Option<i32> {
        self.width
    }

    /// The requested height, if any.
    pub closed spec fn spec_height(self) -> Option<i32> {
        self.height
    }

    /// Settings for `pixel_format`, with no requested dimensions.
    pub fn new(pixel_format: u32) -> (s: Self)
        ensures
            s.spec_pixel_format() == pixel_format,
            s.spec_width() is None,
            s.spec_height() is None,
    {
        VideoOutputSettings { pixel_format, width: None, height: None }
    }

    /// Settings for 32-bit BGRA pixels, with no requested dimensions.
    pub fn bgra() -> (s: Self)
        ensures
            s.spec_pixel_format() == PIXEL_FORMAT_BGRA,
            s.spec_width() is None,
            s.spec_height() is None,
    {
        Self::new(PIXEL_FORMAT_BGRA)
    }

    /// The same settings, with the given dimensions requested.
    pub fn with_dimensions(self, width: i32, height: i32) -> (s: Self)
        ensures
            s.spec_pixel_format() == self.spec_pixel_format(),
            s.spec_width() == Some(width),
            s.spec_height() == Some(height),
    {
        VideoOutputSettings { pixel_format: self.pixel_format, width: Some(width), height: Some(height) }
    }

    /// The pixel format, as a four-character code.
    pub fn pixel_format(&self) -> (r: u32)
        ensures
            r == self.spec_pixel_format(),
    {
        self.pixel_format
    }

    /// The requested width, if any.
    pub fn width(&self) -> (r: Option<i32>)
        ensures
            r == self.spec_width(),
    {
        self.width
    }

    /// The requested height, if any.
    pub fn height(&self) -> (r: Option<i32>)
        ensures
            r == self.spec_height(),
    {
        self.height
    }
}

} // verus!
