//! The ordering and recovery laws of the frame pipeline, proved over the
//! driver's transition functions and its GPU-visible effect trace.

use vstd::prelude::*;
use crate::driver::{
    frame_triples, lemma_sync_of_push, sync_of, AcquireOutcome, DriverModel, FramePhase, GpuEffect,
};
use crate::extent::Extent;

verus! {

/// A trace of completed frames has a whole number of frames.
pub proof fn lemma_frame_triples_len(s: Seq<GpuEffect>)
    requires
        frame_triples(s),
    ensures
        s.len() % 3 == 0,
    decreases s.len(),
{
    if s.len() != 0 {
        lemma_frame_triples_len(s.skip(3));
    }
}

/// For any successful frame of a trace of completed frames, the GPU-visible
/// effects come in the order acquisition-complete, then execution-complete,
/// then presentation-complete, of one and the same image — never reordered.
pub proof fn lemma_frame_effect_order(s: Seq<GpuEffect>, k: int)
    requires
        frame_triples(s),
        0 <= k,
        3 * k + 2 < s.len(),
    ensures
        s[3 * k] matches GpuEffect::Acquired { image_index } && s[3 * k + 1] == (
        GpuEffect::Executed { image_index }) && s[3 * k + 2] == (GpuEffect::Presented {
            image_index,
        }),
    decreases k,
{
    if k == 0 {
        assert(s.len() >= 3);
    } else {
        lemma_frame_effect_order(s.skip(3), k - 1);
        assert(s.skip(3)[3 * (k - 1)] == s[3 * k]);
        assert(s.skip(3)[3 * (k - 1) + 1] == s[3 * k + 1]);
        assert(s.skip(3)[3 * (k - 1) + 2] == s[3 * k + 2]);
    }
}

/// In a trace of completed frames, an acquisition can only stand at the start
/// of a frame.
pub proof fn lemma_acquired_positions(s: Seq<GpuEffect>, n: int)
    requires
        frame_triples(s),
        0 <= n < s.len(),
        s[n] is Acquired,
    ensures
        n % 3 == 0,
    decreases s.len(),
{
    if n < 3 {
        assert(s.len() >= 3);
        if n == 1 {
            assert(s[1] is Executed);
        }
        if n == 2 {
            assert(s[2] is Presented);
        }
    } else {
        lemma_acquired_positions(s.skip(3), n - 3);
        assert(s.skip(3)[n - 3] == s[n]);
    }
}

/// No two frames bind the same swapchain image index without an intervening
/// presentation of that index: between any two acquisitions of image `i`
/// stands the presentation of `i` that completed the earlier frame.
pub proof fn lemma_no_rebind_without_present(s: Seq<GpuEffect>, n1: int, n2: int, i: u32)
    requires
        frame_triples(s),
        0 <= n1 < n2 < s.len(),
        s[n1] == (GpuEffect::Acquired { image_index: i }),
        s[n2] == (GpuEffect::Acquired { image_index: i }),
    ensures
        n1 + 2 < n2,
        s[n1 + 2] == (GpuEffect::Presented { image_index: i }),
        exists|m: int| n1 < m < n2 && s[m] == (GpuEffect::Presented { image_index: i }),
    decreases s.len(),
{
    lemma_acquired_positions(s, n1);
    lemma_acquired_positions(s, n2);
    assert(3 * (n1 / 3) == n1);
    assert(n2 >= n1 + 3);
    lemma_frame_effect_order(s, n1 / 3);
    assert(s[n1 + 2] == (GpuEffect::Presented { image_index: i }));
    assert(n1 < n1 + 2 < n2);
}

/// One resize event applied to an idle driver: it stays idle and well formed,
/// suspends exactly when the reported extent is zero, recreates the swapchain
/// at the reported extent otherwise, and never changes format, present mode,
/// or image count.
pub proof fn lemma_on_resized_preserves_wf(m: DriverModel, e: Extent)
    requires
        m.wf(),
        !m.closed,
        m.phase is Idle,
    ensures
        ({
            let d = m.spec_on_resized(e);
            &&& d.wf()
            &&& !d.closed
            &&& d.phase is Idle
            &&& d.minimized == e.is_zero()
            &&& (!e.is_zero() ==> d.swapchain.state is Valid && d.swapchain.config.extent == e)
            &&& d.swapchain.config.format == m.swapchain.config.format
            &&& d.swapchain.config.present_mode == m.swapchain.config.present_mode
            &&& d.swapchain.config.image_count == m.swapchain.config.image_count
        }),
{
    let d = m.spec_on_resized(e);
    if !e.is_zero() {
        lemma_sync_of_push(
            m.trace,
            GpuEffect::SwapchainRecreated {
                extent: e,
                image_count: m.swapchain.config.image_count,
            },
        );
    }
    assert(sync_of(d.trace) == sync_of(m.trace));
}

/// The driver after a sequence of resize events, applied in order.
pub open spec fn apply_resizes(m: DriverModel, es: Seq<Extent>) -> DriverModel
    decreases es.len(),
{
    if es.len() == 0 {
        m
    } else {
        apply_resizes(m.spec_on_resized(es[0]), es.skip(1))
    }
}

/// For every sequence of resize events ending in a nonzero extent, the driver
/// comes out valid and unsuspended, and the swapchain extent equals the last
/// reported drawable extent, with format, present mode, and image count
/// untouched. The next redraw therefore proceeds straight to acquisition, and
/// the retry discipline (`lemma_retry_once`) bounds it to at most one
/// recreation before it either succeeds or suspends.
pub proof fn lemma_resizes_track_last_extent(m: DriverModel, es: Seq<Extent>)
    requires
        m.wf(),
        !m.closed,
        m.phase is Idle,
        es.len() > 0,
        !es.last().is_zero(),
    ensures
        ({
            let d = apply_resizes(m, es);
            &&& d.wf()
            &&& !d.closed
            &&& d.phase is Idle
            &&& !d.minimized
            &&& d.swapchain.state is Valid
            &&& d.swapchain.config.extent == es.last()
            &&& d.swapchain.config.format == m.swapchain.config.format
            &&& d.swapchain.config.present_mode == m.swapchain.config.present_mode
            &&& d.swapchain.config.image_count == m.swapchain.config.image_count
        }),
    decreases es.len(),
{
    lemma_on_resized_preserves_wf(m, es[0]);
    let d1 = m.spec_on_resized(es[0]);
    if es.len() == 1 {
        assert(es.skip(1).len() == 0);
        assert(apply_resizes(m, es) == d1) by {
            reveal_with_fuel(apply_resizes, 2);
        }
        assert(es[0] == es.last());
    } else {
        assert(es.skip(1).last() == es.last());
        lemma_resizes_track_last_extent(d1, es.skip(1));
    }
}

/// A resize event reporting a zero dimension suspends rendering: the trace
/// gains no effect at all, and while suspended every redraw request is a
/// no-op — no acquisition, no allocation, no recording — until a nonzero
/// resize clears the suspension.
pub proof fn lemma_zero_resize_suspends(m: DriverModel, e: Extent)
    requires
        m.wf(),
        !m.closed,
        m.phase is Idle,
        e.is_zero(),
    ensures
        ({
            let d = m.spec_on_resized(e);
            &&& d.wf()
            &&& d.minimized
            &&& d.trace == m.trace
            &&& d.spec_begin_frame().1 == false
            &&& d.spec_begin_frame().0 == d
        }),
{
    lemma_on_resized_preserves_wf(m, e);
}

/// Within one redraw, a suboptimal acquisition triggers exactly one
/// recreation: the first asks the caller to recreate, and a second suboptimal
/// outcome after the retry suspends instead of recreating again.
pub proof fn lemma_retry_once(m: DriverModel, o1: AcquireOutcome, o2: AcquireOutcome)
    requires
        m.wf(),
        m.phase == (FramePhase::Acquiring { retried: false }),
        o1 is Suboptimal,
        o2 is Suboptimal,
    ensures
        m.spec_acquire(o1).1 is Recreate,
        m.spec_acquire(o1).0.spec_acquire(o2).1 is Suspend,
        m.spec_acquire(o1).0.spec_acquire(o2).0.minimized,
        m.spec_acquire(o1).0.spec_acquire(o2).0.phase is Idle,
{
}

/// A well-formed driver that is between frames has a trace whose
/// synchronization effects are exactly a sequence of completed frames; the
/// per-frame ordering and rebinding laws above then apply to it.
pub proof fn lemma_idle_driver_trace_ordered(m: DriverModel)
    requires
        m.wf(),
        !(m.phase is Rendering),
    ensures
        frame_triples(sync_of(m.trace)),
        sync_of(m.trace).len() % 3 == 0,
{
    lemma_frame_triples_len(sync_of(m.trace));
}

} // verus!
