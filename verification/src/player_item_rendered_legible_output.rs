//! Rendered legible outputs: the decoding of the caption-image events the
//! bridge reports, and the pairing of each caption image with the pixel buffer
//! handed over with it.

use vstd::prelude::*;

use crate::text::str_eq;
use crate::time::Time;

verus! {

/// Rendered-legible-output event as the bridge reports it; `P` describes one
/// caption image.
#[derive(Debug, Clone, PartialEq)]
pub struct RenderedLegibleOutputEventPayload<P> {
    /// Event name.
    pub event: String,
    /// Item time of the captions.
    pub item_time: Option<Time>,
    /// Descriptions of the caption images.
    pub caption_images: Option<Vec<P>>,
}

/// Events of a rendered legible output; `I` is one caption image.
#[derive(Debug, Clone, PartialEq)]
#[non_exhaustive]
pub enum RenderedLegibleOutputEvent<I> {
    /// Pending captions were flushed.
    SequenceWasFlushed,
    /// Caption images for an item time.
    RenderedCaptionImages { item_time: Time, caption_images: Vec<I> },
}

/// The pairs of the first elements of `a` with the first elements of `b`, as
/// many as the shorter sequence has.
pub open spec fn zip_spec<P, B>(a: Seq<P>, b: Seq<B>) -> Seq<(P, B)> {
    Seq::new(if a.len() <= b.len() { a.len() } else { b.len() }, |i: int| (a[i], b[i]))
}

/// Pairs each item with the buffer at the same position, in order; items or
/// buffers beyond the shorter list are dropped.
pub fn pair_in_order<P, B>(items: Vec<P>, buffers: Vec<B>) -> (r: Vec<(P, B)>)
    ensures
        r@ == zip_spec(items@, buffers@),
{
    let ghost ps = items@;
    let ghost bs = buffers@;
    let mut buffers = buffers;
    let mut stack: Vec<B> = Vec::new();
    while buffers.len() > 0
        invariant
            stack.len() + buffers.len() == bs.len(),
            buffers@ == bs.subrange(0, buffers.len() as int),
            forall|j: int| 0 <= j < stack.len() ==> #[trigger] stack[j] == bs[bs.len() - 1 - j],
        decreases buffers.len(),
    {
        let b = buffers.pop().unwrap();
        stack.push(b);
    }
    let ghost n: int = bs.len() as int;
    let mut out: Vec<(P, B)> = Vec::new();
    for p in it: items.into_iter()
        invariant
            it.seq() == ps,
            n == bs.len(),
            out.len() == (if it.index() <= n { it.index() as int } else { n }),
            stack.len() == n - out.len(),
            forall|j: int| 0 <= j < stack.len() ==> #[trigger] stack[j] == bs[n - 1 - j],
            forall|k: int| 0 <= k < out.len() ==> #[trigger] out[k] == (ps[k], bs[k]),
    {
        match stack.pop() {
            Some(b) => {
                out.push((p, b));
            },
            None => {},
        }
    }
    proof {
        assert(out@ =~= zip_spec(ps, bs));
    }
    out
}

/// What a payload decodes to, given the buffers handed over with it: caption
/// images without an item time, or an unknown name, decode to `None`.
pub open spec fn rendered_event_spec<P, B>(
    p: RenderedLegibleOutputEventPayload<P>,
    buffers: Seq<B>,
    r: Option<RenderedLegibleOutputEvent<(P, B)>>,
) -> bool {
    if p.event@ == "sequence_was_flushed"@ {
        r == Some(RenderedLegibleOutputEvent::<(P, B)>::SequenceWasFlushed)
    } else if p.event@ == "rendered_caption_images"@ {
        match p.item_time {
            Some(t) => match r {
                Some(RenderedLegibleOutputEvent::RenderedCaptionImages { item_time, caption_images }) => item_time
                    == t && caption_images@ == zip_spec(
                    match p.caption_images {
                        Some(v) => v@,
                        None => Seq::<P>::empty(),
                    },
                    buffers,
                ),
                _ => false,
            },
            None => r is None,
        }
    } else {
        r is None
    }
}

impl<P, B> RenderedLegibleOutputEvent<(P, B)> {
    /// Decodes a payload, pairing its caption images with the buffers handed
    /// over with it, in order.
    pub fn from_payload(payload: RenderedLegibleOutputEventPayload<P>, buffers: Vec<B>) -> (r: Option<Self>)
        ensures
            rendered_event_spec(payload, buffers@, r),
    {
        if str_eq(payload.event.as_str(), "sequence_was_flushed") {
            Some(RenderedLegibleOutputEvent::SequenceWasFlushed)
        } else if str_eq(payload.event.as_str(), "rendered_caption_images") {
            match payload.item_time {
                Some(item_time) => {
                    let images = match payload.caption_images {
                        Some(v) => v,
                        None => Vec::new(),
                    };
                    let caption_images = pair_in_order(images, buffers);
                    Some(RenderedLegibleOutputEvent::RenderedCaptionImages { item_time, caption_images })
                },
                None => None,
            }
        } else {
            None
        }
    }
}

} // verus!
