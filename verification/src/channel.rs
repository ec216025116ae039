//! The cross-stage channel: a single-slot handoff between the GPU-facing
//! render stage and the CPU-facing update stage.
//!
//! Each stage owns one `ExtractableImages` instance. Once per frame, at the
//! stage boundary, `sync_images` runs the delivery protocol: the consumer's
//! refresh request travels to the producer, and the producer's captured
//! bytes travel to the consumer — but only when the consumer has drained the
//! previous delivery, so a delivery is never overwritten and each captured
//! frame is handed over at most once.

use vstd::prelude::*;

verus! {

/// One side of the cross-stage channel.
///
/// `raw` holds the latest captured frame, depadded to tight rows; an empty
/// buffer means "no new data". `refresh` is set by the consuming stage when
/// it wants a new capture delivered.
pub struct ExtractableImages {
    pub raw: Vec<u8>,
    pub refresh: bool,
}

/// Spec-level value of one channel side.
pub ghost struct ChannelView {
    pub raw: Seq<u8>,
    pub refresh: bool,
}

impl View for ExtractableImages {
    type V = ChannelView;

    open spec fn view(&self) -> ChannelView {
        ChannelView { raw: self.raw@, refresh: self.refresh }
    }
}

impl ExtractableImages {
    /// An empty channel side: no pending bytes, no refresh request.
    pub fn new() -> (c: Self)
        ensures
            c@.raw.len() == 0,
            !c@.refresh,
    {
        ExtractableImages { raw: Vec::new(), refresh: false }
    }
}

impl Default for ExtractableImages {
    /// Same as `new`: an empty channel side.
    fn default() -> (c: Self)
        ensures
            c@.raw.len() == 0,
            !c@.refresh,
    {
        ExtractableImages::new()
    }
}

/// The boundary step delivers exactly when the producer has new bytes and
/// the consumer has drained the previous delivery.
pub open spec fn sync_delivers(render_side: ChannelView, main_side: ChannelView) -> bool {
    render_side.raw.len() > 0 && main_side.raw.len() == 0
}

/// Runs the stage-boundary protocol between the render-stage side (the
/// producer) and the update-stage side (the consumer):
/// the consumer's refresh request is copied to the producer; then, if the
/// producer holds bytes and the consumer is drained, the bytes move to the
/// consumer, the producer slot is cleared and the refresh request is
/// considered served. Otherwise both byte buffers stay as they are.
pub fn sync_images(render_side: &mut ExtractableImages, main_side: &mut ExtractableImages)
    ensures
        final(render_side)@.refresh == old(main_side)@.refresh,
        sync_delivers(old(render_side)@, old(main_side)@) ==> {
            &&& final(main_side)@.raw == old(render_side)@.raw
            &&& final(render_side)@.raw.len() == 0
            &&& !final(main_side)@.refresh
        },
        !sync_delivers(old(render_side)@, old(main_side)@) ==> {
            &&& final(main_side)@ == old(main_side)@
            &&& final(render_side)@.raw == old(render_side)@.raw
        },
{
    render_side.refresh = main_side.refresh;

    if render_side.raw.is_empty() {
        return ;
    }

    // Back-pressure: never overwrite a delivery the consumer has not drained.
    if !main_side.raw.is_empty() {
        return ;
    }

    // The consumer side is empty, so the swap both delivers the bytes and
    // leaves the producer slot cleared.
    core::mem::swap(&mut main_side.raw, &mut render_side.raw);
    main_side.refresh = false;
}

} // verus!
