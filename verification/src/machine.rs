//! The per-tick state machine, as a function of the task table and the
//! update-stage side of the cross-stage channel.
//!
//! Each tick: fully consumed tasks are evicted; bytes delivered by the
//! channel go to the waiting task; a task whose bytes arrived settles
//! (camera off, result ready or compression pending, resources freed when
//! the task is single-use); if nothing is in flight, the next registered
//! task starts rendering; and every task waiting for its capture keeps its
//! camera on and a refresh requested.
//!
//! The spec functions below are the model of one tick; the executable
//! functions carry them out on the table.

use crate::channel::ExtractableImages;
use crate::fetch::{ImageExportBundle, ImageExportSettings};
use crate::render::{views, RenderToTextureTasks};
use crate::target::CameraInfo;
use crate::task::{
    in_flight, released_handles, RenderToTextureTask, RenderToTextureTaskStage, TaskView,
};
use vstd::prelude::*;
use vstd::std_specs::vec::vec_index_mut;

verus! {

/// Eviction: the table without its fully consumed tasks.
pub open spec fn evict_done(s: Seq<TaskView>) -> Seq<TaskView> {
    s.filter(|t: TaskView| t.stage != RenderToTextureTaskStage::TaskDone)
}

/// First index at the given lifecycle stage, or -1 when there is none.
pub open spec fn first_at_stage(s: Seq<TaskView>, stage: RenderToTextureTaskStage) -> int
    decreases s.len(),
{
    if s.len() == 0 {
        -1
    } else if s[0].stage == stage {
        0
    } else {
        let rest = first_at_stage(s.drop_first(), stage);
        if rest < 0 {
            -1
        } else {
            rest + 1
        }
    }
}

/// What `first_at_stage` finds: the first index at the stage, and -1
/// exactly when no task is at it.
pub proof fn lemma_first_at_stage(s: Seq<TaskView>, stage: RenderToTextureTaskStage)
    ensures
        -1 <= first_at_stage(s, stage) < s.len(),
        first_at_stage(s, stage) >= 0 ==> s[first_at_stage(s, stage)].stage == stage,
        first_at_stage(s, stage) >= 0 ==> forall|j: int|
            0 <= j < first_at_stage(s, stage) ==> s[j].stage != stage,
        first_at_stage(s, stage) == -1 ==> forall|j: int|
            0 <= j < s.len() ==> s[j].stage != stage,
    decreases s.len(),
{
    if s.len() > 0 && s[0].stage != stage {
        lemma_first_at_stage(s.drop_first(), stage);
        assert forall|j: int| 1 <= j < s.len() implies s[j] == s.drop_first()[j - 1] by {}
    }
}

/// The camera descriptor with rendering switched off.
pub open spec fn deactivated(c: Option<CameraInfo>) -> Option<CameraInfo> {
    match c {
        Some(ci) => Some(CameraInfo { active: false, ..ci }),
        None => None,
    }
}

/// The camera descriptor with rendering switched on.
pub open spec fn activated(c: Option<CameraInfo>) -> Option<CameraInfo> {
    match c {
        Some(ci) => Some(CameraInfo { active: true, ..ci }),
        None => None,
    }
}

/// Delivery: when the channel brought bytes, the first task waiting for
/// its capture receives them and moves on; everything else is unchanged.
pub open spec fn deliver(s: Seq<TaskView>, raw: Seq<u8>) -> Seq<TaskView> {
    if raw.len() == 0 {
        s
    } else {
        let i = first_at_stage(s, RenderToTextureTaskStage::ReadyForRendering);
        if i < 0 {
            s
        } else {
            s.update(
                i,
                TaskView {
                    stage: RenderToTextureTaskStage::RenderedResultCopiedBack,
                    data: raw,
                    ..s[i]
                },
            )
        }
    }
}

/// Settling of one task whose capture arrived: its camera stops rendering.
/// Without compression the result is ready at once, and a single-use task
/// releases its camera and capture entity eagerly. With compression the
/// task stays where it is until the codec's output is stored.
pub open spec fn settle_one(t: TaskView) -> TaskView {
    if t.stage != RenderToTextureTaskStage::RenderedResultCopiedBack {
        t
    } else if t.should_compress {
        TaskView { camera: deactivated(t.camera), ..t }
    } else {
        let done = TaskView {
            stage: RenderToTextureTaskStage::ReadyForReading,
            camera: deactivated(t.camera),
            ..t
        };
        if t.allow_changes {
            done
        } else {
            TaskView { camera: None, bundle: None, ..done }
        }
    }
}

/// Settling applied across the table.
pub open spec fn settle_copied(s: Seq<TaskView>) -> Seq<TaskView> {
    s.map_values(|t: TaskView| settle_one(t))
}

/// The handles one settling task releases: those of a single-use task
/// whose uncompressed result just became ready.
pub open spec fn released_on_settle(t: TaskView) -> Seq<u64> {
    if t.stage == RenderToTextureTaskStage::RenderedResultCopiedBack && !t.should_compress
        && !t.allow_changes {
        released_handles(t)
    } else {
        Seq::empty()
    }
}

/// All handles released while the table settles, in table order.
pub open spec fn settle_released(s: Seq<TaskView>) -> Seq<u64>
    decreases s.len(),
{
    if s.len() == 0 {
        Seq::empty()
    } else {
        released_on_settle(s[0]) + settle_released(s.drop_first())
    }
}

/// `settle_released` grows at the back as the table does.
pub proof fn lemma_settle_released_push(s: Seq<TaskView>, t: TaskView)
    ensures
        settle_released(s.push(t)) == settle_released(s) + released_on_settle(t),
    decreases s.len(),
{
    if s.len() == 0 {
        assert(settle_released(s) =~= Seq::empty());
        assert(s.push(t).drop_first() =~= s);
        assert(s.push(t)[0] == t);
        assert(settle_released(s.push(t)) == released_on_settle(t) + settle_released(s));
        assert(released_on_settle(t) + settle_released(s) =~= settle_released(s)
            + released_on_settle(t));
    } else {
        assert(s.push(t).drop_first() =~= s.drop_first().push(t));
        lemma_settle_released_push(s.drop_first(), t);
        assert(settle_released(s.push(t)) =~= settle_released(s) + released_on_settle(t));
    }
}

/// Whether some task's capture is in flight — back-pressure forbids
/// starting another while one is.
pub open spec fn any_in_flight(s: Seq<TaskView>) -> bool {
    exists|i: int| 0 <= i < s.len() && in_flight(s[i])
}

/// Whether some task is waiting for its capture to be delivered.
pub open spec fn any_waiting(s: Seq<TaskView>) -> bool {
    exists|i: int|
        0 <= i < s.len() && s[i].stage == RenderToTextureTaskStage::ReadyForRendering
}

/// A task as it starts rendering: camera on, a fresh capture entity
/// pointing at the task's render target, waiting for the capture.
pub open spec fn started_task(t: TaskView, bundle_id: u64) -> TaskView {
    TaskView {
        stage: RenderToTextureTaskStage::ReadyForRendering,
        camera: activated(t.camera),
        bundle: Some(
            ImageExportBundle { id: bundle_id, source: t.target.id, settings: ImageExportSettings },
        ),
        ..t
    }
}

/// Whether this tick starts a capture: some task is registered and
/// nothing is in flight.
pub open spec fn will_start(s: Seq<TaskView>) -> bool {
    !any_in_flight(s) && first_at_stage(s, RenderToTextureTaskStage::Initialized) >= 0
}

/// Start: when nothing is in flight, the first registered task begins
/// rendering, with `bundle_id` as its capture entity's handle.
pub open spec fn start_next(s: Seq<TaskView>, bundle_id: u64) -> Seq<TaskView> {
    if !will_start(s) {
        s
    } else {
        let i = first_at_stage(s, RenderToTextureTaskStage::Initialized);
        s.update(i, started_task(s[i], bundle_id))
    }
}

/// A waiting task keeps its camera rendering until its capture arrives.
pub open spec fn refresh_one(t: TaskView) -> TaskView {
    if t.stage == RenderToTextureTaskStage::ReadyForRendering {
        TaskView { camera: activated(t.camera), ..t }
    } else {
        t
    }
}

/// The camera refresh applied across the table.
pub open spec fn refresh_pass(s: Seq<TaskView>) -> Seq<TaskView> {
    s.map_values(|t: TaskView| refresh_one(t))
}

/// One tick of the state machine over the whole table: evict, deliver,
/// settle, start, refresh.
pub open spec fn tick_result(s: Seq<TaskView>, raw: Seq<u8>, bundle_id: u64) -> Seq<TaskView> {
    refresh_pass(start_next(settle_copied(deliver(evict_done(s), raw)), bundle_id))
}

/// Removes every fully consumed task, keeping the order of the rest.
fn evict_exec(tasks: &mut Vec<RenderToTextureTask>)
    ensures
        views(final(tasks)@) == evict_done(views(old(tasks)@)),
{
    let ghost orig = views(old(tasks)@);
    let mut rest: Vec<RenderToTextureTask> = Vec::new();
    core::mem::swap(tasks, &mut rest);
    let ghost all = views(rest@);
    proof {
        assert(all =~= orig);
    }
    proof {
        assert(views(rest@) =~= all.skip(0));
        assert(views(tasks@) =~= evict_done(all.take(0))) by {
            reveal(Seq::filter);
        }
    }
    let mut consumed: usize = 0;
    let total = rest.len();
    while rest.len() > 0
        invariant
            consumed + rest.len() == total,
            total == all.len(),
            views(rest@) == all.skip(consumed as int),
            views(tasks@) == evict_done(all.take(consumed as int)),
        decreases rest.len(),
    {
        let ghost rest_before = rest@;
        let t = rest.remove(0);
        proof {
            let c = consumed as int;
            assert(t@ == views(rest_before)[0]);
            assert(views(rest_before)[0] == all.skip(c)[0]);
            assert(views(rest@) =~= all.skip(c + 1)) by {
                assert forall|j: int| 0 <= j < rest@.len() implies views(rest@)[j] == all.skip(
                    c + 1,
                )[j] by {
                    assert(rest@[j] == rest_before[j + 1]);
                    assert(views(rest_before)[j + 1] == all.skip(c)[j + 1]);
                }
            }
        }
        if !matches!(t.stage, RenderToTextureTaskStage::TaskDone) {
            tasks.push(t);
        }
        proof {
            let c = consumed as int;
            let pre = all.take(c);
            let cur = all.take(c + 1);
            assert(cur.drop_last() =~= pre);
            assert(cur.last() == all[c]);
            assert(evict_done(cur) == (if all[c].stage != RenderToTextureTaskStage::TaskDone {
                evict_done(pre).push(all[c])
            } else {
                evict_done(pre)
            })) by {
                reveal(Seq::filter);
            }
            assert(views(tasks@) =~= evict_done(cur));
        }
        consumed = consumed + 1;
    }
    proof {
        assert(all.take(total as int) =~= all);
        assert(views(final(tasks)@) =~= evict_done(orig));
    }
}

/// Hands the channel's bytes to the first task waiting for its capture,
/// and drains the channel either way.
#[verifier::loop_isolation(false)]
fn deliver_exec(tasks: &mut Vec<RenderToTextureTask>, channel: &mut ExtractableImages)
    ensures
        views(final(tasks)@) == deliver(views(old(tasks)@), old(channel)@.raw),
        final(channel)@.raw.len() == 0,
        final(channel)@.refresh == old(channel)@.refresh,
{
    let ghost orig = views(old(tasks)@);
    if channel.raw.is_empty() {
        return ;
    }
    let n = tasks.len();
    let mut i: usize = 0;
    while i < n
        invariant
            n == tasks@.len(),
            i <= n,
            views(tasks@) == orig,
            channel@ == old(channel)@,
            old(channel)@.raw.len() > 0,
            forall|j: int|
                0 <= j < i ==> orig[j].stage != RenderToTextureTaskStage::ReadyForRendering,
        decreases n - i,
    {
        proof {
            assert(views(tasks@)[i as int] == tasks@[i as int]@);
        }
        if matches!(tasks[i].stage, RenderToTextureTaskStage::ReadyForRendering) {
            proof {
                assert(orig[i as int].stage == RenderToTextureTaskStage::ReadyForRendering);
                lemma_first_at_stage(orig, RenderToTextureTaskStage::ReadyForRendering);
                let f = first_at_stage(orig, RenderToTextureTaskStage::ReadyForRendering);
                if f == -1 {
                    assert(orig[i as int].stage != RenderToTextureTaskStage::ReadyForRendering);
                }
                if 0 <= f < i as int {
                    assert(orig[f].stage != RenderToTextureTaskStage::ReadyForRendering);
                }
                if f > i as int {
                    assert(orig[i as int].stage != RenderToTextureTaskStage::ReadyForRendering);
                }
            }
            let t = vec_index_mut(tasks, i);
            t.stage = RenderToTextureTaskStage::RenderedResultCopiedBack;
            core::mem::swap(&mut t.data, &mut channel.raw);
            channel.raw.clear();
            proof {
                assert(views(tasks@) =~= orig.update(
                    i as int,
                    TaskView {
                        stage: RenderToTextureTaskStage::RenderedResultCopiedBack,
                        data: old(channel)@.raw,
                        ..orig[i as int]
                    },
                ));
            }
            return ;
        }
        i = i + 1;
    }
    proof {
        lemma_first_at_stage(orig, RenderToTextureTaskStage::ReadyForRendering);
        let f = first_at_stage(orig, RenderToTextureTaskStage::ReadyForRendering);
        if f >= 0 {
            assert(orig[f].stage != RenderToTextureTaskStage::ReadyForRendering);
        }
    }
    channel.raw.clear();
}

/// Settles every task whose capture arrived this tick; returns the
/// handles of eagerly freed resources, for the host to despawn.
#[verifier::loop_isolation(false)]
fn settle_exec(tasks: &mut Vec<RenderToTextureTask>) -> (released: Vec<u64>)
    ensures
        views(final(tasks)@) == settle_copied(views(old(tasks)@)),
        released@ == settle_released(views(old(tasks)@)),
{
    let ghost orig = views(old(tasks)@);
    let mut released: Vec<u64> = Vec::new();
    let n = tasks.len();
    let mut i: usize = 0;
    proof {
        assert(released@ =~= settle_released(orig.take(0)));
    }
    while i < n
        invariant
            n == tasks@.len(),
            n == orig.len(),
            i <= n,
            forall|j: int| i <= j < n ==> views(tasks@)[j] == orig[j],
            forall|j: int| 0 <= j < i ==> views(tasks@)[j] == settle_one(orig[j]),
            released@ == settle_released(orig.take(i as int)),
        decreases n - i,
    {
        proof {
            assert(views(tasks@)[i as int] == tasks@[i as int]@);
        }
        if matches!(tasks[i].stage, RenderToTextureTaskStage::RenderedResultCopiedBack) {
            let t = vec_index_mut(tasks, i);
            match &mut t.camera {
                Some(c) => {
                    c.active = false;
                },
                None => {},
            }
            if !t.should_compress {
                t.stage = RenderToTextureTaskStage::ReadyForReading;
                if !t.allow_changes {
                    let mut rel = t.free();
                    proof {
                        assert(rel@ =~= released_on_settle(orig[i as int]));
                    }
                    released.append(&mut rel);
                }
            }
            proof {
                assert(views(tasks@)[i as int] == settle_one(orig[i as int]));
            }
        }
        proof {
            let c = i as int;
            assert(orig.take(c + 1) =~= orig.take(c).push(orig[c]));
            lemma_settle_released_push(orig.take(c), orig[c]);
            assert(released@ =~= settle_released(orig.take(c + 1)));
        }
        i = i + 1;
    }
    proof {
        assert(orig.take(n as int) =~= orig);
        assert(views(final(tasks)@) =~= settle_copied(orig));
    }
    released
}

/// Starts the first registered task when nothing is in flight: camera on,
/// capture entity spawned with a fresh handle, waiting for the capture.
#[verifier::loop_isolation(false)]
fn start_exec(tasks: &mut Vec<RenderToTextureTask>, handles: &mut crate::target::HandleAlloc)
    requires
        old(handles).next_id < u64::MAX,
    ensures
        views(final(tasks)@) == start_next(views(old(tasks)@), old(handles).next_id),
        final(handles).next_id == old(handles).next_id + (if will_start(views(old(tasks)@)) {
            1int
        } else {
            0int
        }),
{
    let ghost orig = views(old(tasks)@);
    let n = tasks.len();
    let mut i: usize = 0;
    while i < n
        invariant
            n == tasks@.len(),
            n == orig.len(),
            i <= n,
            views(tasks@) == orig,
            handles == old(handles),
            forall|j: int| 0 <= j < i ==> !in_flight(orig[j]),
        decreases n - i,
    {
        proof {
            assert(views(tasks@)[i as int] == tasks@[i as int]@);
        }
        let st = tasks[i].stage;
        if matches!(st, RenderToTextureTaskStage::ReadyForRendering) || matches!(
            st,
            RenderToTextureTaskStage::RenderedResultCopiedBack,
        ) {
            proof {
                assert(in_flight(orig[i as int]));
                assert(!will_start(orig));
            }
            return ;
        }
        i = i + 1;
    }
    proof {
        assert(!any_in_flight(orig)) by {
            if any_in_flight(orig) {
                let w = choose|w: int| 0 <= w < orig.len() && in_flight(orig[w]);
                assert(!in_flight(orig[w]));
            }
        }
    }
    let mut k: usize = 0;
    while k < n
        invariant
            n == tasks@.len(),
            n == orig.len(),
            k <= n,
            views(tasks@) == orig,
            handles == old(handles),
            old(handles).next_id < u64::MAX,
            !any_in_flight(orig),
            forall|j: int|
                0 <= j < k ==> orig[j].stage != RenderToTextureTaskStage::Initialized,
        decreases n - k,
    {
        proof {
            assert(views(tasks@)[k as int] == tasks@[k as int]@);
        }
        if matches!(tasks[k].stage, RenderToTextureTaskStage::Initialized) {
            proof {
                assert(orig[k as int].stage == RenderToTextureTaskStage::Initialized);
                lemma_first_at_stage(orig, RenderToTextureTaskStage::Initialized);
                let f = first_at_stage(orig, RenderToTextureTaskStage::Initialized);
                if f == -1 {
                    assert(orig[k as int].stage != RenderToTextureTaskStage::Initialized);
                }
                if 0 <= f < k as int {
                    assert(orig[f].stage != RenderToTextureTaskStage::Initialized);
                }
                if f > k as int {
                    assert(orig[k as int].stage != RenderToTextureTaskStage::Initialized);
                }
                assert(will_start(orig));
            }
            let id = handles.fresh();
            let t = vec_index_mut(tasks, k);
            match &mut t.camera {
                Some(c) => {
                    c.active = true;
                },
                None => {},
            }
            t.bundle = Some(
                ImageExportBundle { id, source: t.target.id, settings: ImageExportSettings },
            );
            t.stage = RenderToTextureTaskStage::ReadyForRendering;
            proof {
                assert(views(tasks@) =~= orig.update(
                    k as int,
                    started_task(orig[k as int], old(handles).next_id),
                ));
            }
            return ;
        }
        k = k + 1;
    }
    proof {
        lemma_first_at_stage(orig, RenderToTextureTaskStage::Initialized);
        let f = first_at_stage(orig, RenderToTextureTaskStage::Initialized);
        if f >= 0 {
            assert(orig[f].stage != RenderToTextureTaskStage::Initialized);
        }
        assert(!will_start(orig));
    }
}

/// Keeps every waiting task's camera rendering and requests a refresh
/// from the readback step whenever some task waits for its capture.
#[verifier::loop_isolation(false)]
fn refresh_exec(tasks: &mut Vec<RenderToTextureTask>, images: &mut ExtractableImages)
    ensures
        views(final(tasks)@) == refresh_pass(views(old(tasks)@)),
        final(images)@.raw == old(images)@.raw,
        final(images)@.refresh == (old(images)@.refresh || any_waiting(views(old(tasks)@))),
{
    let ghost orig = views(old(tasks)@);
    let n = tasks.len();
    let mut i: usize = 0;
    while i < n
        invariant
            n == tasks@.len(),
            n == orig.len(),
            i <= n,
            forall|j: int| i <= j < n ==> views(tasks@)[j] == orig[j],
            forall|j: int| 0 <= j < i ==> views(tasks@)[j] == refresh_one(orig[j]),
            images@.raw == old(images)@.raw,
            images@.refresh == (old(images)@.refresh || exists|j: int|
                0 <= j < i && orig[j].stage == RenderToTextureTaskStage::ReadyForRendering),
        decreases n - i,
    {
        let ghost vb = tasks@;
        proof {
            assert(views(tasks@)[i as int] == tasks@[i as int]@);
        }
        if matches!(tasks[i].stage, RenderToTextureTaskStage::ReadyForRendering) {
            let t = vec_index_mut(tasks, i);
            match &mut t.camera {
                Some(c) => {
                    c.active = true;
                },
                None => {},
            }
            images.refresh = true;
            proof {
                assert(orig[i as int].stage == RenderToTextureTaskStage::ReadyForRendering);
                assert(views(tasks@)[i as int] == refresh_one(orig[i as int]));
            }
        }
        proof {
            assert forall|j: int| 0 <= j < i as int + 1 implies views(tasks@)[j] == refresh_one(
                orig[j],
            ) by {
                assert(views(vb)[j] == vb[j]@);
                assert(views(tasks@)[j] == tasks@[j]@);
                if j < i as int {
                    assert(tasks@[j] == vb[j]);
                }
            }
        }
        i = i + 1;
    }
    proof {
        assert(views(final(tasks)@) =~= refresh_pass(orig));
        if images@.refresh && !old(images)@.refresh {
            assert(any_waiting(orig));
        }
        if any_waiting(orig) {
            let w = choose|w: int|
                0 <= w < orig.len() && orig[w].stage
                    == RenderToTextureTaskStage::ReadyForRendering;
            assert(0 <= w < n as int && orig[w].stage
                == RenderToTextureTaskStage::ReadyForRendering);
        }
    }
}

/// One tick of the pipeline's update stage, run once per frame: evicts
/// fully consumed tasks, hands delivered bytes to the waiting task,
/// settles it (camera off; result ready, or compression pending for the
/// codec's output; single-use resources freed), starts the next
/// registered task when nothing is in flight, and keeps waiting tasks'
/// cameras on with a refresh requested from the readback step.
///
/// `extractable_images` is the update-stage side of the channel; it is
/// drained here. The returned handles are resources freed this tick, for
/// the host to despawn, capture entity before camera for each task.
pub fn update_render_to_texture(
    tasks: &mut RenderToTextureTasks,
    extractable_images: &mut ExtractableImages,
) -> (released: Vec<u64>)
    requires
        old(tasks)@.next_id < u64::MAX,
    ensures
        final(tasks)@.tasks == tick_result(
            old(tasks)@.tasks,
            old(extractable_images)@.raw,
            old(tasks)@.next_id,
        ),
        final(tasks)@.supported_compressed_formats == old(tasks)@.supported_compressed_formats,
        released@ == settle_released(
            deliver(evict_done(old(tasks)@.tasks), old(extractable_images)@.raw),
        ),
        final(tasks)@.next_id == old(tasks)@.next_id + (if will_start(
            settle_copied(deliver(evict_done(old(tasks)@.tasks), old(extractable_images)@.raw)),
        ) {
            1int
        } else {
            0int
        }),
        final(extractable_images)@.raw.len() == 0,
        final(extractable_images)@.refresh == (old(extractable_images)@.refresh || any_waiting(
            final(tasks)@.tasks,
        )),
        crate::laws::at_most_one_in_flight(old(tasks)@.tasks)
            ==> crate::laws::at_most_one_in_flight(final(tasks)@.tasks),
{
    evict_exec(&mut tasks.tasks);
    deliver_exec(&mut tasks.tasks, extractable_images);
    let released = settle_exec(&mut tasks.tasks);
    start_exec(&mut tasks.tasks, &mut tasks.handles);
    refresh_exec(&mut tasks.tasks, extractable_images);
    proof {
        let pre = start_next(
            settle_copied(deliver(evict_done(old(tasks)@.tasks), old(extractable_images)@.raw)),
            old(tasks)@.next_id,
        );
        assert(any_waiting(refresh_pass(pre)) == any_waiting(pre)) by {
            if any_waiting(pre) {
                let w = choose|w: int|
                    0 <= w < pre.len() && pre[w].stage
                        == RenderToTextureTaskStage::ReadyForRendering;
                assert(refresh_pass(pre)[w].stage
                    == RenderToTextureTaskStage::ReadyForRendering);
            }
            if any_waiting(refresh_pass(pre)) {
                let w = choose|w: int|
                    0 <= w < refresh_pass(pre).len() && refresh_pass(pre)[w].stage
                        == RenderToTextureTaskStage::ReadyForRendering;
                assert(pre[w].stage == RenderToTextureTaskStage::ReadyForRendering);
            }
        }
        if crate::laws::at_most_one_in_flight(old(tasks)@.tasks) {
            crate::laws::lemma_tick_backpressure(
                old(tasks)@.tasks,
                old(extractable_images)@.raw,
                old(tasks)@.next_id,
            );
        }
    }
    released
}

} // verus!
