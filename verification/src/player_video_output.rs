//! Player video outputs: tag-collection presets, the kinds of tagged buffers,
//! and the assignment of the retained buffer objects the bridge hands over to
//! the tagged buffers of a sample.
//!
//! Retained objects are identified by their address as an integer; `0` stands
//! for a null object.

use vstd::prelude::*;

use crate::error::AVPlayerError;
use crate::text::str_eq;
use crate::time::Time;

verus! {

/// Output settings of a player video output.
pub type PlayerVideoOutputSettings = crate::reader::VideoOutputSettings;

/// Preset tag collection of a video output.
#[derive(Debug, Clone, Copy, PartialEq, Eq, Hash, Structural)]
pub enum PlayerVideoOutputTagCollectionPreset {
    /// Monoscopic.
    Monoscopic,
    /// Stereoscopic.
    Stereoscopic,
}

impl PlayerVideoOutputTagCollectionPreset {

    /// The raw bridge number of the value.
    pub open spec fn raw_value(self) -> u32 {
        match self {
            PlayerVideoOutputTagCollectionPreset::Monoscopic => 0,
            PlayerVideoOutputTagCollectionPreset::Stereoscopic => 1,
        }
    }

    /// The raw bridge number of the value.
    pub fn raw(self) -> (r: u32)
        ensures
            r == self.raw_value(),
    {
        match self {
            PlayerVideoOutputTagCollectionPreset::Monoscopic => 0,
            PlayerVideoOutputTagCollectionPreset::Stereoscopic => 1,
        }
    }
}

/// Kind of buffer a tagged video buffer holds.
#[derive(Debug, Clone, PartialEq, Eq)]
#[non_exhaustive]
pub enum PlayerVideoTaggedBufferKind {
    /// A pixel buffer.
    PixelBuffer,
    /// A sample buffer.
    SampleBuffer,
    /// A raw value this binding does not name.
    Unknown(String),
}

impl PlayerVideoTaggedBufferKind {
    /// The bridge's raw name of the value.
    pub open spec fn raw_name(self) -> Seq<char> {
        match self {
            PlayerVideoTaggedBufferKind::PixelBuffer => "pixel_buffer"@,
            PlayerVideoTaggedBufferKind::SampleBuffer => "sample_buffer"@,
            PlayerVideoTaggedBufferKind::Unknown(raw) => raw@,
        }
    }

    /// Whether `raw` is a name that a named variant stands for.
    pub open spec fn is_known_name(raw: Seq<char>) -> bool {
        raw == "pixel_buffer"@ || raw == "sample_buffer"@
    }

    /// Canonical: an `Unknown` never holds a name that a named variant stands for.
    pub open spec fn is_canonical(self) -> bool {
        match self {
            PlayerVideoTaggedBufferKind::Unknown(raw) => !Self::is_known_name(raw@),
            _ => true,
        }
    }

    /// Decodes the bridge's raw name; a name it does not know is kept in `Unknown`.
    pub fn from_raw(raw: &str) -> (r: Self)
        ensures
            r.raw_name() == raw@,
            r.is_canonical(),
    {
        if str_eq(raw, "pixel_buffer") {
            PlayerVideoTaggedBufferKind::PixelBuffer
        } else if str_eq(raw, "sample_buffer") {
            PlayerVideoTaggedBufferKind::SampleBuffer
        } else {
            PlayerVideoTaggedBufferKind::Unknown(raw.to_owned())
        }
    }
}

/// Two canonical values with the same raw name are the same value: a decoded
/// value is determined by the raw name it was decoded from.
pub proof fn lemma_tagged_buffer_kind_determined_by_raw(a: PlayerVideoTaggedBufferKind, b: PlayerVideoTaggedBufferKind)
    requires
        a.is_canonical(),
        b.is_canonical(),
        a.raw_name() == b.raw_name(),
    ensures
        (a is PixelBuffer) == (b is PixelBuffer),
        (a is SampleBuffer) == (b is SampleBuffer),
        (a is Unknown) == (b is Unknown),
{
    reveal_strlit("pixel_buffer");
    reveal_strlit("sample_buffer");
    assert("pixel_buffer"@.len() != "sample_buffer"@.len());
}

/// A tagged buffer of a video-output sample, as the bridge describes it.
#[derive(Debug, Clone, PartialEq, Eq)]
pub struct PlayerVideoTaggedBufferPayload {
    /// Tags of the buffer.
    pub tags: Vec<String>,
    /// Raw buffer-kind name.
    pub buffer_kind: String,
    /// Width of the pixel buffer, when it has one.
    pub pixel_buffer_width: Option<usize>,
    /// Height of the pixel buffer, when it has one.
    pub pixel_buffer_height: Option<usize>,
}

/// The object a tagged buffer ends up holding, by address.
#[derive(Debug, Clone, Copy, PartialEq, Eq, Structural)]
pub enum PlayerVideoTaggedBufferSlot {
    /// Adopts the retained object as a pixel buffer.
    PixelBuffer(u64),
    /// Adopts the retained object as a sample buffer.
    SampleBuffer(u64),
    /// Holds no buffer.
    Unavailable,
}

/// A decoded tagged buffer together with the object it adopts.
#[derive(Debug, Clone, PartialEq, Eq)]
pub struct PlayerVideoTaggedBufferPlan {
    /// Tags of the buffer.
    pub tags: Vec<String>,
    /// Kind of the buffer.
    pub kind: PlayerVideoTaggedBufferKind,
    /// Width of the pixel buffer, when it has one.
    pub pixel_buffer_width: Option<usize>,
    /// Height of the pixel buffer, when it has one.
    pub pixel_buffer_height: Option<usize>,
    /// The object it adopts.
    pub buffer: PlayerVideoTaggedBufferSlot,
}

/// The tagged buffers of a sample with its presentation time, and the
/// retained objects that no tagged buffer adopts and that must be released, in
/// the order they were handed over.
#[derive(Debug, Clone, PartialEq, Eq)]
pub struct PlayerVideoOutputSamplePlan {
    /// Presentation time of the sample.
    pub presentation_time: Time,
    /// One entry per tagged buffer, in order.
    pub tagged_buffers: Vec<PlayerVideoTaggedBufferPlan>,
    /// Non-null objects to release.
    pub released: Vec<u64>,
}

/// Whether a raw buffer-kind name is one that adopts a retained object.
pub open spec fn adopts_buffer(raw_kind: Seq<char>) -> bool {
    raw_kind == "pixel_buffer"@ || raw_kind == "sample_buffer"@
}

/// The retained object handed over for the `i`-th tagged buffer; null past
/// the end of the list.
pub open spec fn retained_at(retained: Seq<u64>, i: int) -> u64 {
    if 0 <= i < retained.len() {
        retained[i]
    } else {
        0
    }
}

/// What a tagged buffer of kind `kind` holds when handed the object `handle`.
pub open spec fn slot_for(kind: PlayerVideoTaggedBufferKind, handle: u64) -> PlayerVideoTaggedBufferSlot {
    if handle == 0 {
        PlayerVideoTaggedBufferSlot::Unavailable
    } else {
        match kind {
            PlayerVideoTaggedBufferKind::PixelBuffer => PlayerVideoTaggedBufferSlot::PixelBuffer(handle),
            PlayerVideoTaggedBufferKind::SampleBuffer => PlayerVideoTaggedBufferSlot::SampleBuffer(handle),
            PlayerVideoTaggedBufferKind::Unknown(_) => PlayerVideoTaggedBufferSlot::Unavailable,
        }
    }
}

/// Whether the `j`-th retained object is released rather than adopted: it is
/// non-null, and either no tagged buffer stands at `j` or the one there is of
/// a kind that adopts nothing.
pub open spec fn is_released(payloads: Seq<PlayerVideoTaggedBufferPayload>, retained: Seq<u64>, j: int) -> bool {
    retained[j] != 0 && (j >= payloads.len() || !adopts_buffer(payloads[j].buffer_kind@))
}

/// Whether the `j`-th retained object is adopted by the tagged buffer at `j`.
pub open spec fn is_adopted(payloads: Seq<PlayerVideoTaggedBufferPayload>, retained: Seq<u64>, j: int) -> bool {
    retained[j] != 0 && j < payloads.len() && adopts_buffer(payloads[j].buffer_kind@)
}

/// The released objects among the first `k` retained ones, in order.
pub open spec fn released_prefix(
    payloads: Seq<PlayerVideoTaggedBufferPayload>,
    retained: Seq<u64>,
    k: nat,
) -> Seq<u64>
    decreases k,
{
    if k == 0 {
        Seq::empty()
    } else {
        let j = k - 1;
        let prev = released_prefix(payloads, retained, (k - 1) as nat);
        if is_released(payloads, retained, j) {
            prev.push(retained[j])
        } else {
            prev
        }
    }
}

/// Number of adopted objects among the first `k` retained ones.
pub open spec fn adopted_count(payloads: Seq<PlayerVideoTaggedBufferPayload>, retained: Seq<u64>, k: nat) -> nat
    decreases k,
{
    if k == 0 {
        0
    } else {
        adopted_count(payloads, retained, (k - 1) as nat) + if is_adopted(payloads, retained, k - 1) {
            1nat
        } else {
            0nat
        }
    }
}

/// Number of non-null objects among the first `k` retained ones.
pub open spec fn non_null_count(retained: Seq<u64>, k: nat) -> nat
    decreases k,
{
    if k == 0 {
        0
    } else {
        non_null_count(retained, (k - 1) as nat) + if retained[k - 1] != 0 {
            1nat
        } else {
            0nat
        }
    }
}

/// The `i`-th tagged buffer decoded from `p` and handed the object `handle`.
pub open spec fn tagged_plan_matches(
    plan: PlayerVideoTaggedBufferPlan,
    p: PlayerVideoTaggedBufferPayload,
    handle: u64,
) -> bool {
    &&& plan.tags == p.tags
    &&& plan.kind.raw_name() == p.buffer_kind@
    &&& plan.kind.is_canonical()
    &&& plan.pixel_buffer_width == p.pixel_buffer_width
    &&& plan.pixel_buffer_height == p.pixel_buffer_height
    &&& plan.buffer == slot_for(plan.kind, handle)
}

/// Decodes the tagged buffers of a sample, keeping its presentation time, and
/// hands each the retained object at its position (a null one past the end of
/// the list). A tagged buffer of a kind that adopts nothing releases its
/// object; objects beyond the last tagged buffer are released too.
pub fn plan_tagged_buffers(
    payloads: Vec<PlayerVideoTaggedBufferPayload>,
    presentation_time: Time,
    retained: Vec<u64>,
) -> (r: PlayerVideoOutputSamplePlan)
    ensures
        r.presentation_time == presentation_time,
        r.tagged_buffers.len() == payloads.len(),
        forall|i: int|
            0 <= i < payloads.len() ==> tagged_plan_matches(
                #[trigger] r.tagged_buffers[i],
                payloads[i],
                retained_at(retained@, i),
            ),
        r.released@ == released_prefix(payloads@, retained@, retained.len() as nat),
{
    let ghost ps = payloads@;
    let n = payloads.len();
    let mut tagged: Vec<PlayerVideoTaggedBufferPlan> = Vec::new();
    let mut released: Vec<u64> = Vec::new();
    let mut i: usize = 0;
    for p in it: payloads.into_iter()
        invariant
            it.seq() == ps,
            n == ps.len(),
            i == it.index(),
            tagged.len() == i,
            forall|k: int|
                0 <= k < i ==> tagged_plan_matches(#[trigger] tagged[k], ps[k], retained_at(retained@, k)),
            released@ == released_prefix(ps, retained@, if i <= retained.len() { i as nat } else { retained.len() as nat }),
    {
        let handle: u64 = if i < retained.len() { retained[i] } else { 0 };
        let kind = PlayerVideoTaggedBufferKind::from_raw(p.buffer_kind.as_str());
        proof {
            reveal_strlit("pixel_buffer");
            reveal_strlit("sample_buffer");
            assert("pixel_buffer"@[0] != "sample_buffer"@[0]);
        }
        let buffer = if handle == 0 {
            PlayerVideoTaggedBufferSlot::Unavailable
        } else {
            match &kind {
                PlayerVideoTaggedBufferKind::PixelBuffer => PlayerVideoTaggedBufferSlot::PixelBuffer(handle),
                PlayerVideoTaggedBufferKind::SampleBuffer => PlayerVideoTaggedBufferSlot::SampleBuffer(handle),
                PlayerVideoTaggedBufferKind::Unknown(_) => {
                    released.push(handle);
                    PlayerVideoTaggedBufferSlot::Unavailable
                },
            }
        };
        tagged.push(
            PlayerVideoTaggedBufferPlan {
                tags: p.tags,
                kind,
                pixel_buffer_width: p.pixel_buffer_width,
                pixel_buffer_height: p.pixel_buffer_height,
                buffer,
            },
        );
        i = i + 1;
    }
    let mut j: usize = if n < retained.len() { n } else { retained.len() };
    while j < retained.len()
        invariant
            n == ps.len(),
            j <= retained.len(),
            j >= n || j == retained.len(),
            released@ == released_prefix(ps, retained@, j as nat),
        decreases retained.len() - j,
    {
        if retained[j] != 0 {
            released.push(retained[j]);
        }
        j = j + 1;
    }
    PlayerVideoOutputSamplePlan { presentation_time, tagged_buffers: tagged, released }
}

/// Every non-null retained object is either adopted by the tagged buffer at
/// its position or released, never both and never neither: the adopted ones
/// and the released ones together number exactly the non-null ones.
pub proof fn lemma_retained_buffers_conserved(
    payloads: Seq<PlayerVideoTaggedBufferPayload>,
    retained: Seq<u64>,
    k: nat,
)
    requires
        k <= retained.len(),
    ensures
        adopted_count(payloads, retained, k) + released_prefix(payloads, retained, k).len()
            == non_null_count(retained, k),
    decreases k,
{
    if k > 0 {
        lemma_retained_buffers_conserved(payloads, retained, (k - 1) as nat);
    }
}

/// A tagged buffer holds an object exactly when that object is adopted, and
/// the object it holds is the one retained at its position.
pub proof fn lemma_slot_holds_adopted_object(
    payloads: Seq<PlayerVideoTaggedBufferPayload>,
    retained: Seq<u64>,
    plan: PlayerVideoTaggedBufferPlan,
    i: int,
)
    requires
        0 <= i < payloads.len(),
        i < retained.len(),
        tagged_plan_matches(plan, payloads[i], retained_at(retained, i)),
    ensures
        (plan.buffer != PlayerVideoTaggedBufferSlot::Unavailable) == is_adopted(payloads, retained, i),
        plan.buffer != PlayerVideoTaggedBufferSlot::Unavailable ==> (match plan.buffer {
            PlayerVideoTaggedBufferSlot::PixelBuffer(h) => h == retained[i],
            PlayerVideoTaggedBufferSlot::SampleBuffer(h) => h == retained[i],
            PlayerVideoTaggedBufferSlot::Unavailable => false,
        }),
{
    reveal_strlit("pixel_buffer");
    reveal_strlit("sample_buffer");
    assert("pixel_buffer"@[0] != "sample_buffer"@[0]);
}

/// Checks the tag collections handed to a new video-output specification:
/// there must be at least one.
pub fn check_tag_collection_count(count: usize) -> (r: Result<(), AVPlayerError>)
    ensures
        count > 0 ==> r is Ok,
        count == 0 ==> (match r {
            Err(e) => e is InvalidArgument && e.message_of()
                == "video output specifications require at least one tag collection"@,
            Ok(_) => false,
        }),
{
    if count == 0 {
        Err(AVPlayerError::InvalidArgument(
            "video output specifications require at least one tag collection".to_owned(),
        ))
    } else {
        Ok(())
    }
}

} // verus!
