//! The pipeline's global guarantees, proved over the tick model: the
//! back-pressure invariant, and the solid-color round trip through the
//! depadding step.

use crate::fetch::depadded;
use crate::machine::{
    any_in_flight, deliver, evict_done, first_at_stage, lemma_first_at_stage, refresh_one,
    refresh_pass, settle_copied, settle_one, start_next, started_task, tick_result, will_start,
};
use crate::render::find_task;
use crate::task::{in_flight, RenderToTextureTaskStage, TaskView};
use vstd::prelude::*;

verus! {

/// At most one task is in flight: any two in-flight positions coincide.
pub open spec fn at_most_one_in_flight(s: Seq<TaskView>) -> bool {
    forall|i: int, j: int|
        0 <= i < s.len() && 0 <= j < s.len() && in_flight(s[i]) && in_flight(s[j]) ==> i == j
}

/// How many tasks are in flight.
spec fn in_flight_count(s: Seq<TaskView>) -> int
    decreases s.len(),
{
    if s.len() == 0 {
        0
    } else {
        in_flight_count(s.drop_last()) + if in_flight(s.last()) {
            1int
        } else {
            0int
        }
    }
}

/// An in-flight position forces a positive count.
proof fn lemma_count_at_least_one(s: Seq<TaskView>, i: int)
    requires
        0 <= i < s.len(),
        in_flight(s[i]),
    ensures
        in_flight_count(s) >= 1,
    decreases s.len(),
{
    if i < s.len() - 1 {
        assert(s.drop_last()[i] == s[i]);
        lemma_count_at_least_one(s.drop_last(), i);
    }
    assert(in_flight_count(s.drop_last()) >= 0) by {
        lemma_count_nonneg(s.drop_last());
    }
}

/// The count never goes negative.
proof fn lemma_count_nonneg(s: Seq<TaskView>)
    ensures
        in_flight_count(s) >= 0,
    decreases s.len(),
{
    if s.len() > 0 {
        lemma_count_nonneg(s.drop_last());
    }
}

/// Two distinct in-flight positions force a count of at least two.
proof fn lemma_count_at_least_two(s: Seq<TaskView>, i: int, j: int)
    requires
        0 <= i < j < s.len(),
        in_flight(s[i]),
        in_flight(s[j]),
    ensures
        in_flight_count(s) >= 2,
    decreases s.len(),
{
    if j < s.len() - 1 {
        assert(s.drop_last()[i] == s[i]);
        assert(s.drop_last()[j] == s[j]);
        lemma_count_at_least_two(s.drop_last(), i, j);
        lemma_count_nonneg(s.drop_last());
    } else {
        assert(s.drop_last()[i] == s[i]);
        lemma_count_at_least_one(s.drop_last(), i);
    }
}

/// A count below two means at most one in-flight position.
proof fn lemma_count_single(s: Seq<TaskView>)
    requires
        in_flight_count(s) <= 1,
    ensures
        at_most_one_in_flight(s),
{
    assert forall|i: int, j: int|
        0 <= i < s.len() && 0 <= j < s.len() && in_flight(s[i]) && in_flight(
            s[j],
        ) implies i == j by {
        if i < j {
            lemma_count_at_least_two(s, i, j);
        }
        if j < i {
            lemma_count_at_least_two(s, j, i);
        }
    }
}

/// And the converse: at most one in-flight position keeps the count
/// below two.
proof fn lemma_single_count(s: Seq<TaskView>)
    requires
        at_most_one_in_flight(s),
    ensures
        in_flight_count(s) <= 1,
    decreases s.len(),
{
    if s.len() > 0 {
        let d = s.drop_last();
        assert(at_most_one_in_flight(d)) by {
            assert forall|i: int, j: int|
                0 <= i < d.len() && 0 <= j < d.len() && in_flight(d[i]) && in_flight(
                    d[j],
                ) implies i == j by {
                assert(d[i] == s[i]);
                assert(d[j] == s[j]);
            }
        }
        lemma_single_count(d);
        lemma_count_nonneg(d);
        if in_flight(s.last()) && in_flight_count(d) >= 1 {
            let w = lemma_count_witness(d);
            assert(in_flight(s[w]));
            assert(in_flight(s[s.len() - 1]));
        }
    }
}

/// A positive count exhibits an in-flight position.
proof fn lemma_count_witness(s: Seq<TaskView>) -> (i: int)
    requires
        in_flight_count(s) >= 1,
    ensures
        0 <= i < s.len(),
        in_flight(s[i]),
    decreases s.len(),
{
    lemma_count_nonneg(s.drop_last());
    if in_flight(s.last()) {
        s.len() - 1
    } else {
        let i = lemma_count_witness(s.drop_last());
        assert(s.drop_last()[i] == s[i]);
        i
    }
}

/// Eviction only removes tasks, so it cannot raise the count.
proof fn lemma_count_evict(s: Seq<TaskView>)
    ensures
        in_flight_count(evict_done(s)) <= in_flight_count(s),
    decreases s.len(),
{
    reveal(Seq::filter);
    if s.len() == 0 {
    } else {
        let d = s.drop_last();
        lemma_count_evict(d);
        if s.last().stage != RenderToTextureTaskStage::TaskDone {
            let e = evict_done(d).push(s.last());
            assert(evict_done(s) == e);
            assert(e.drop_last() =~= evict_done(d));
            assert(e.last() == s.last());
        } else {
            assert(evict_done(s) == evict_done(d));
            assert(!in_flight(s.last()));
        }
    }
}

/// Replacing one task changes the count exactly by the flags of the old
/// and new occupant.
proof fn lemma_count_update(s: Seq<TaskView>, f: int, v: TaskView)
    requires
        0 <= f < s.len(),
    ensures
        in_flight_count(s.update(f, v)) == in_flight_count(s) - (if in_flight(s[f]) {
            1int
        } else {
            0int
        }) + (if in_flight(v) {
            1int
        } else {
            0int
        }),
    decreases s.len(),
{
    let u = s.update(f, v);
    if f == s.len() - 1 {
        assert(u.drop_last() =~= s.drop_last());
        assert(u.last() == v);
    } else {
        assert(u.drop_last() =~= s.drop_last().update(f, v));
        assert(u.last() == s.last());
        assert(s.drop_last()[f] == s[f]);
        lemma_count_update(s.drop_last(), f, v);
    }
}

/// Settling never puts a task in flight that was not.
proof fn lemma_count_settle(s: Seq<TaskView>)
    ensures
        in_flight_count(settle_copied(s)) <= in_flight_count(s),
    decreases s.len(),
{
    if s.len() > 0 {
        let d = s.drop_last();
        assert(settle_copied(s).drop_last() =~= settle_copied(d));
        assert(settle_copied(s).last() == settle_one(s.last()));
        lemma_count_settle(d);
        assert(in_flight(settle_one(s.last())) ==> in_flight(s.last()));
    }
}

/// The camera refresh leaves every stage, and so the count, alone.
proof fn lemma_count_refresh(s: Seq<TaskView>)
    ensures
        in_flight_count(refresh_pass(s)) == in_flight_count(s),
    decreases s.len(),
{
    if s.len() > 0 {
        let d = s.drop_last();
        assert(refresh_pass(s).drop_last() =~= refresh_pass(d));
        assert(refresh_pass(s).last() == refresh_one(s.last()));
        lemma_count_refresh(d);
        assert(in_flight(refresh_one(s.last())) == in_flight(s.last()));
    }
}

/// No in-flight position means a count of zero.
proof fn lemma_count_none(s: Seq<TaskView>)
    requires
        !any_in_flight(s),
    ensures
        in_flight_count(s) == 0,
    decreases s.len(),
{
    if s.len() > 0 {
        let d = s.drop_last();
        assert(!any_in_flight(d)) by {
            if any_in_flight(d) {
                let w = choose|w: int| 0 <= w < d.len() && in_flight(d[w]);
                assert(d[w] == s[w]);
            }
        }
        lemma_count_none(d);
        assert(!in_flight(s.last()));
    }
}

/// Back-pressure: when at most one task is in flight before a tick, at
/// most one is in flight after it — the tick starts a new capture only
/// when none is under way, and every other transition either keeps a task
/// in flight or takes it out.
pub proof fn lemma_tick_backpressure(s: Seq<TaskView>, raw: Seq<u8>, bundle_id: u64)
    requires
        at_most_one_in_flight(s),
    ensures
        at_most_one_in_flight(tick_result(s, raw, bundle_id)),
{
    lemma_single_count(s);
    let e = evict_done(s);
    lemma_count_evict(s);
    let dl = deliver(e, raw);
    assert(in_flight_count(dl) <= in_flight_count(e)) by {
        if raw.len() > 0 {
            let f = first_at_stage(e, RenderToTextureTaskStage::ReadyForRendering);
            lemma_first_at_stage(e, RenderToTextureTaskStage::ReadyForRendering);
            if f >= 0 {
                lemma_count_update(
                    e,
                    f,
                    TaskView {
                        stage: RenderToTextureTaskStage::RenderedResultCopiedBack,
                        data: raw,
                        ..e[f]
                    },
                );
            }
        }
    }
    let st = settle_copied(dl);
    lemma_count_settle(dl);
    let sn = start_next(st, bundle_id);
    assert(in_flight_count(sn) <= 1) by {
        lemma_count_nonneg(st);
        if will_start(st) {
            let f = first_at_stage(st, RenderToTextureTaskStage::Initialized);
            lemma_first_at_stage(st, RenderToTextureTaskStage::Initialized);
            lemma_count_none(st);
            lemma_count_update(st, f, started_task(st[f], bundle_id));
        }
    }
    lemma_count_refresh(sn);
    lemma_count_single(refresh_pass(sn));
}

/// Registering a task keeps the back-pressure invariant: a new task is
/// not in flight.
pub proof fn lemma_push_backpressure(s: Seq<TaskView>, v: TaskView)
    requires
        at_most_one_in_flight(s),
        !in_flight(v),
    ensures
        at_most_one_in_flight(s.push(v)),
{
    let u = s.push(v);
    assert forall|i: int, j: int|
        0 <= i < u.len() && 0 <= j < u.len() && in_flight(u[i]) && in_flight(
            u[j],
        ) implies i == j by {
        if i < s.len() && j < s.len() {
            assert(u[i] == s[i]);
            assert(u[j] == s[j]);
        }
    }
}

/// Changing one task keeps the back-pressure invariant as long as the
/// change does not put a task in flight out of turn: the new value may be
/// in flight only if the old one was, or if nothing at all was. This
/// covers every consuming transition — a result read, an image taken, a
/// codec output stored — and a re-render of an idle table; re-rendering
/// while another capture is in flight is the one caller-driven step the
/// invariant does not survive.
pub proof fn lemma_update_backpressure(s: Seq<TaskView>, f: int, v: TaskView)
    requires
        at_most_one_in_flight(s),
        0 <= f < s.len(),
        in_flight(v) ==> in_flight(s[f]) || !any_in_flight(s),
    ensures
        at_most_one_in_flight(s.update(f, v)),
{
    let u = s.update(f, v);
    assert forall|i: int, j: int|
        0 <= i < u.len() && 0 <= j < u.len() && in_flight(u[i]) && in_flight(
            u[j],
        ) implies i == j by {
        if i != f && j != f {
            assert(u[i] == s[i]);
            assert(u[j] == s[j]);
        }
        if i == f && j != f {
            assert(u[j] == s[j]);
            assert(in_flight(s[j]));
        }
        if j == f && i != f {
            assert(u[i] == s[i]);
            assert(in_flight(s[i]));
        }
    }
}

/// Round trip of an uncompressed solid-color capture: a mapped buffer
/// that repeats the same four color bytes everywhere — rows padded to a
/// stride that is a whole number of pixels — depads to exactly
/// `width * height` pixels of that color, four bytes per pixel. Delivery
/// then hands the depadded buffer unchanged to the waiting task, and
/// `read` hands it unchanged to the consumer.
pub proof fn lemma_solid_color_round_trip(
    padded: Seq<u8>,
    color: Seq<u8>,
    width: nat,
    height: nat,
    bpr: nat,
    stride: nat,
)
    requires
        color.len() == 4,
        bpr == 4 * width,
        bpr <= stride,
        stride % 4 == 0,
        height * stride <= padded.len(),
        forall|m: int| 0 <= m < padded.len() ==> padded[m] == color[m % 4],
    ensures
        depadded(padded, bpr, stride, height).len() == 4 * (width * height),
        forall|k: int|
            0 <= k < 4 * (width * height) ==> #[trigger] depadded(padded, bpr, stride, height)[k]
                == color[k % 4],
{
    let out = depadded(padded, bpr, stride, height);
    assert(out.len() == height * bpr);
    assert(height * bpr == 4 * (width * height)) by (nonlinear_arith)
        requires
            bpr == 4 * width,
    ;
    assert forall|k: int| 0 <= k < 4 * (width * height) implies #[trigger] out[k] == color[k
        % 4] by {
        let b = bpr as int;
        let r = k / b;
        let j = k % b;
        let m = r * stride as int + j;
        assert(b > 0) by (nonlinear_arith)
            requires
                b == 4 * width,
                0 <= k < 4 * (width * height),
        ;
        vstd::arithmetic::div_mod::lemma_fundamental_div_mod(k, b);
        vstd::arithmetic::div_mod::lemma_mod_bound(k, b);
        assert(0 <= r && r < height) by (nonlinear_arith)
            requires
                b > 0,
                0 <= j < b,
                k == b * r + j,
                0 <= k < height * b,
        ;
        assert(m < height * stride) by (nonlinear_arith)
            requires
                0 <= r < height,
                0 <= j < b,
                b <= stride,
                m == r * stride as int + j,
        ;
        let q = stride as int / 4;
        vstd::arithmetic::div_mod::lemma_fundamental_div_mod(stride as int, 4);
        assert(m == 4 * (r * q) + j && k == 4 * (width * r) + j) by (nonlinear_arith)
            requires
                stride == 4 * q,
                b == 4 * width,
                m == r * stride as int + j,
                k == b * r + j,
        ;
        vstd::arithmetic::div_mod::lemma_mod_multiples_vanish(r * q, j, 4);
        vstd::arithmetic::div_mod::lemma_mod_multiples_vanish(width as int * r, j, 4);
        assert(m % 4 == j % 4 && k % 4 == j % 4);
        assert(out[k] == padded[m]);
        assert(padded[m] == color[m % 4]);
    }
}

/// Two task lists whose names agree position by position are searched the
/// same way.
proof fn lemma_find_task_same_names(s1: Seq<TaskView>, s2: Seq<TaskView>, name: Seq<char>)
    requires
        s1.len() == s2.len(),
        forall|i: int| 0 <= i < s1.len() ==> s1[i].name == s2[i].name,
    ensures
        find_task(s1, name) == find_task(s2, name),
    decreases s1.len(),
{
    if s1.len() > 0 {
        assert forall|i: int| 0 <= i < s1.len() - 1 implies s1.drop_first()[i].name
            == s2.drop_first()[i].name by {
            assert(s1.drop_first()[i] == s1[i + 1]);
            assert(s2.drop_first()[i] == s2[i + 1]);
        }
        lemma_find_task_same_names(s1.drop_first(), s2.drop_first(), name);
    }
}

/// A result handed out without finishing stays with its task: taking the
/// image of a ready task leaves the described bytes in place, and a
/// repeated query finds the same task again, now no longer ready — so
/// further unfinished queries describe the same underlying bytes and
/// change nothing, until the task is told to render again.
pub proof fn lemma_image_unfinished_idempotent(s: Seq<TaskView>, name: Seq<char>)
    requires
        find_task(s, name) >= 0,
        s[find_task(s, name)].stage == RenderToTextureTaskStage::ReadyForReading,
    ensures
        ({
            let i = find_task(s, name);
            let after = s.update(
                i,
                TaskView { stage: RenderToTextureTaskStage::ResultReceived, ..s[i] },
            );
            &&& after[i].data == s[i].data
            &&& find_task(after, name) == i
            &&& after[find_task(after, name)].stage != RenderToTextureTaskStage::ReadyForReading
        }),
{
    let i = find_task(s, name);
    crate::render::lemma_find_task(s, name);
    let after = s.update(i, TaskView { stage: RenderToTextureTaskStage::ResultReceived, ..s[i] });
    lemma_find_task_same_names(s, after, name);
}

} // verus!
