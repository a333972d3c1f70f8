//! The frame driver: orchestrates one frame per redraw request — acquire an
//! image (recreating the swapchain on demand, once), stage the geometry,
//! record the command sequence, submit it chained after acquisition, chain
//! presentation after submission — and reacts to resize and close events.
//!
//! Every GPU-visible step is logged in an effect trace, in the order the
//! device would observe it; the trace is what the ordering guarantees of the
//! frame pipeline are stated and proved over.

use vstd::prelude::*;
use crate::allocator::{
    FrameAllocator, IndexBuffer, VertexBuffer, INDEX_ELEMENT_BYTES, VERTEX_ELEMENT_BYTES,
};
use crate::extent::Extent;
use crate::geometry::Mesh;
use crate::recorder::{
    record_command_buffer, spec_draw_commands, CommandBufferUsage, CommandContext, ImageViewInfo,
};
use crate::surface::{PresentMode, SurfaceCapabilities, SurfaceFormat};
use crate::swapchain::{SurfaceState, SwapchainCreateError, SwapchainManager};

verus! {

/// One GPU-visible effect, in the order the device observes them. This is
/// exactly what a mock device recording call order would log.
#[derive(Clone, Copy, Debug, PartialEq, Eq, Structural)]
pub enum GpuEffect {
    SwapchainCreated { extent: Extent, image_count: u32 },
    SwapchainRecreated { extent: Extent, image_count: u32 },
    /// Acquisition of a swapchain image completed.
    Acquired { image_index: u32 },
    VertexBufferAllocated { element_count: usize },
    IndexBufferAllocated { element_count: usize },
    DrawRecorded { index_count: u32 },
    /// Execution of the frame's commands completed (chained after acquisition).
    Executed { image_index: u32 },
    /// Presentation of the image completed (chained after execution).
    Presented { image_index: u32 },
    PipelineReleased,
    AllocatorReleased,
    SwapchainReleased,
    DeviceReleased,
}

/// Where the driver stands within one redraw request.
#[derive(Clone, Copy, Debug, PartialEq, Eq, Structural)]
pub enum FramePhase {
    /// Between frames; events may be handled.
    Idle,
    /// An acquisition outcome is awaited; `retried` once the one permitted
    /// recreation of this redraw has been spent.
    Acquiring { retried: bool },
    /// An image is acquired and its frame has not been presented yet.
    Rendering { image_index: u32 },
}

/// What the device reported for one acquisition attempt. Fatal acquisition
/// errors terminate the frame loop in the caller and never reach the driver.
#[derive(Clone, Copy, Debug, PartialEq, Eq, Structural)]
pub enum AcquireOutcome {
    /// An image is available; acquisition of it has been queued.
    Ready { image_index: u32 },
    /// The swapchain no longer matches the surface; no image was acquired.
    Suboptimal,
}

/// What the driver asks of its caller after an acquisition attempt.
#[derive(Clone, Copy, Debug, PartialEq, Eq, Structural)]
pub enum AcquireDecision {
    /// Render the frame on this image.
    Render { image_index: u32 },
    /// Recreate the swapchain at the current drawable size, then acquire once
    /// more.
    Recreate,
    /// Give the frame up and treat the surface as minimized.
    Suspend,
}

/// The synchronization effects: the three that the future chain of one frame
/// orders.
pub open spec fn is_sync_effect(e: GpuEffect) -> bool {
    e is Acquired || e is Executed || e is Presented
}

/// The trace restricted to its synchronization effects.
pub open spec fn sync_of(t: Seq<GpuEffect>) -> Seq<GpuEffect>
    decreases t.len(),
{
    if t.len() == 0 {
        Seq::empty()
    } else if is_sync_effect(t.last()) {
        sync_of(t.drop_last()).push(t.last())
    } else {
        sync_of(t.drop_last())
    }
}

/// `s` is a concatenation of completed frames: acquisition, execution, and
/// presentation of one image, in that order, frame after frame.
pub open spec fn frame_triples(s: Seq<GpuEffect>) -> bool
    decreases s.len(),
{
    if s.len() == 0 {
        true
    } else {
        &&& s.len() >= 3
        &&& s[0] matches GpuEffect::Acquired { image_index } && s[1] == (GpuEffect::Executed {
            image_index,
        }) && s[2] == (GpuEffect::Presented { image_index })
        &&& frame_triples(s.skip(3))
    }
}

/// Appending one effect extends the synchronization projection exactly when
/// the effect is a synchronization effect.
pub proof fn lemma_sync_of_push(t: Seq<GpuEffect>, e: GpuEffect)
    ensures
        is_sync_effect(e) ==> sync_of(t.push(e)) == sync_of(t).push(e),
        !is_sync_effect(e) ==> sync_of(t.push(e)) == sync_of(t),
{
    assert(t.push(e).len() == t.len() + 1);
    assert(t.push(e).drop_last() =~= t);
    assert(t.push(e).last() == e);
    if is_sync_effect(e) {
        assert(sync_of(t.push(e)) == sync_of(t.push(e).drop_last()).push(e));
        assert(sync_of(t.push(e).drop_last()) == sync_of(t));
    } else {
        assert(sync_of(t.push(e)) == sync_of(t.push(e).drop_last()));
    }
}

/// A sequence of completed frames followed by one more completed frame is a
/// sequence of completed frames.
pub proof fn lemma_frame_triples_append(x: Seq<GpuEffect>, i: u32)
    requires
        frame_triples(x),
    ensures
        frame_triples(
            x + seq![
                GpuEffect::Acquired { image_index: i },
                GpuEffect::Executed { image_index: i },
                GpuEffect::Presented { image_index: i },
            ],
        ),
    decreases x.len(),
{
    let t = seq![
        GpuEffect::Acquired { image_index: i },
        GpuEffect::Executed { image_index: i },
        GpuEffect::Presented { image_index: i },
    ];
    let y = x + t;
    assert(y.len() == x.len() + 3);
    if x.len() == 0 {
        assert(y =~= t);
        assert(y.skip(3) =~= Seq::<GpuEffect>::empty());
        assert(frame_triples(y.skip(3)));
        assert(y[0] == (GpuEffect::Acquired { image_index: i }));
        assert(y[1] == (GpuEffect::Executed { image_index: i }));
        assert(y[2] == (GpuEffect::Presented { image_index: i }));
        assert(frame_triples(y));
    } else {
        lemma_frame_triples_append(x.skip(3), i);
        assert(y.skip(3) =~= x.skip(3) + t);
        assert(frame_triples(y.skip(3)));
        assert(y[0] == x[0] && y[1] == x[1] && y[2] == x[2]);
        assert(frame_triples(y));
    }
}

/// The abstract state of the frame driver, over which its transitions and the
/// frame-ordering laws are stated.
pub struct DriverModel {
    pub swapchain: SwapchainManager,
    pub allocator: FrameAllocator,
    pub minimized: bool,
    pub closed: bool,
    pub phase: FramePhase,
    pub trace: Seq<GpuEffect>,
}

impl DriverModel {
    /// The trace is a sequence of completed frames — plus, while a frame is
    /// being rendered, the acquisition that opened it.
    pub open spec fn trace_wf(&self) -> bool {
        match self.phase {
            FramePhase::Rendering { image_index } => {
                &&& sync_of(self.trace).len() >= 1
                &&& sync_of(self.trace).last() == (GpuEffect::Acquired { image_index })
                &&& frame_triples(sync_of(self.trace).drop_last())
            },
            _ => frame_triples(sync_of(self.trace)),
        }
    }

    /// Internal consistency of the driver.
    pub open spec fn wf(&self) -> bool {
        &&& self.swapchain.wf()
        &&& self.allocator.wf()
        &&& (self.phase is Acquiring || self.phase is Rendering) ==> !self.minimized
            && !self.closed
        &&& self.closed ==> self.phase is Idle && self.swapchain.state is Destroyed
        &&& !self.closed ==> !(self.swapchain.state is Destroyed)
        &&& !self.closed && !self.minimized && self.phase is Idle
            ==> self.swapchain.state is Valid
        &&& self.phase matches FramePhase::Acquiring { retried } ==> (self.swapchain.state
            is Valid || (retried && self.swapchain.state is OutOfDate))
        &&& self.phase matches FramePhase::Rendering { image_index } ==> (self.swapchain.state
            is Valid && image_index < self.swapchain.image_view_count)
        &&& self.trace_wf()
    }

    /// The driver after a resize event: a zero extent suspends rendering
    /// without touching the device; a nonzero extent recreates the swapchain
    /// at the reported size and resumes.
    pub open spec fn spec_on_resized(self, drawable: Extent) -> DriverModel {
        let swapchain = SwapchainManager::spec_recreate(self.swapchain, drawable);
        if drawable.is_zero() {
            DriverModel { swapchain, minimized: true, ..self }
        } else {
            DriverModel {
                swapchain,
                minimized: false,
                trace: self.trace.push(
                    GpuEffect::SwapchainRecreated {
                        extent: drawable,
                        image_count: self.swapchain.config.image_count,
                    },
                ),
                ..self
            }
        }
    }

    /// The driver at the start of a redraw request, and whether the frame
    /// proceeds: a minimized surface skips the frame entirely.
    pub open spec fn spec_begin_frame(self) -> (DriverModel, bool) {
        if self.minimized {
            (self, false)
        } else {
            (DriverModel { phase: FramePhase::Acquiring { retried: false }, ..self }, true)
        }
    }

    /// The driver after an acquisition outcome, and the decision handed back:
    /// a ready image opens the frame; a suboptimal report triggers one
    /// recreation, and on its second occurrence within a redraw suspends.
    pub open spec fn spec_acquire(self, outcome: AcquireOutcome) -> (DriverModel, AcquireDecision) {
        match outcome {
            AcquireOutcome::Ready { image_index } => (
                DriverModel {
                    phase: FramePhase::Rendering { image_index },
                    trace: self.trace.push(GpuEffect::Acquired { image_index }),
                    ..self
                },
                AcquireDecision::Render { image_index },
            ),
            AcquireOutcome::Suboptimal => {
                let swapchain = SwapchainManager {
                    state: SurfaceState::OutOfDate,
                    ..self.swapchain
                };
                if self.phase == (FramePhase::Acquiring { retried: false }) {
                    (
                        DriverModel {
                            swapchain,
                            phase: FramePhase::Acquiring { retried: true },
                            ..self
                        },
                        AcquireDecision::Recreate,
                    )
                } else {
                    (
                        DriverModel {
                            swapchain,
                            phase: FramePhase::Idle,
                            minimized: true,
                            ..self
                        },
                        AcquireDecision::Suspend,
                    )
                }
            },
        }
    }

    /// The driver after the one mid-redraw recreation attempt: success
    /// rebuilds the swapchain at the drawable size and the acquisition is
    /// retried; failure (zero extent) abandons the frame and suspends.
    pub open spec fn spec_recreate_retry(self, drawable: Extent) -> (DriverModel, bool) {
        let swapchain = SwapchainManager::spec_recreate(self.swapchain, drawable);
        if drawable.is_zero() {
            (
                DriverModel { swapchain, minimized: true, phase: FramePhase::Idle, ..self },
                false,
            )
        } else {
            (
                DriverModel {
                    swapchain,
                    trace: self.trace.push(
                        GpuEffect::SwapchainRecreated {
                            extent: drawable,
                            image_count: self.swapchain.config.image_count,
                        },
                    ),
                    ..self
                },
                true,
            )
        }
    }
}

/// Everything one rendered frame hands back to the caller: which image to
/// present, the staged geometry, and the finished command sequence.
pub struct FrameSubmission {
    pub image_index: u32,
    pub vertex_buffer: VertexBuffer,
    pub index_buffer: IndexBuffer,
    pub commands: CommandContext,
}

/// The frame driver. The caller performs the actual device calls — acquire,
/// recreate, submit, present, wait — and feeds their outcomes in; the driver
/// makes every decision, keeps the surface-validity state machine, and logs
/// the GPU-visible effect order.
pub struct FrameDriver {
    pub swapchain: SwapchainManager,
    pub allocator: FrameAllocator,
    pub minimized: bool,
    pub closed: bool,
    pub phase: FramePhase,
    pub trace: Vec<GpuEffect>,
}

impl View for FrameDriver {
    type V = DriverModel;

    open spec fn view(&self) -> DriverModel {
        DriverModel {
            swapchain: self.swapchain,
            allocator: self.allocator,
            minimized: self.minimized,
            closed: self.closed,
            phase: self.phase,
            trace: self.trace@,
        }
    }
}

impl FrameDriver {
    /// Negotiates and creates the swapchain and starts the driver idle and
    /// unminimized; the creation is the first effect the device observes.
    pub fn new(
        formats: &Vec<SurfaceFormat>,
        modes: &Vec<PresentMode>,
        caps: &SurfaceCapabilities,
    ) -> (r: Result<FrameDriver, SwapchainCreateError>)
        requires
            caps.wf(),
        ensures
            r is Ok <==> formats@.len() > 0 && modes@.contains(PresentMode::Fifo)
                && !caps.current_extent.is_zero(),
            formats@.len() == 0 ==> r == Err::<FrameDriver, _>(
                SwapchainCreateError::NoSurfaceFormat,
            ),
            formats@.len() > 0 && !modes@.contains(PresentMode::Fifo) ==> r == Err::<
                FrameDriver,
                _,
            >(SwapchainCreateError::NoPresentMode),
            formats@.len() > 0 && modes@.contains(PresentMode::Fifo)
                && caps.current_extent.is_zero() ==> r == Err::<FrameDriver, _>(
                SwapchainCreateError::ZeroExtent,
            ),
            r matches Ok(d) ==> {
                &&& d@.wf()
                &&& d.swapchain.wf()
                &&& d.swapchain.state is Valid
                &&& d.swapchain.config.extent == caps.current_extent
                &&& d.swapchain.config.present_mode is Fifo
                &&& d.swapchain.config.image_count == crate::surface::spec_image_count(*caps)
                &&& formats@.contains(d.swapchain.config.format)
                &&& (exists|i: int| 0 <= i < formats@.len() && formats@[i].is_preferred())
                    ==> d.swapchain.config.format.is_preferred()
                &&& !d.minimized
                &&& !d.closed
                &&& d.phase is Idle
                &&& d.allocator.cursor == 0
                &&& d.trace@ =~= seq![
                    GpuEffect::SwapchainCreated {
                        extent: caps.current_extent,
                        image_count: d.swapchain.config.image_count,
                    },
                ]
            },
    {
        let swapchain = match SwapchainManager::new(formats, modes, caps) {
            Ok(m) => m,
            Err(e) => {
                return Err(e);
            },
        };
        let mut trace: Vec<GpuEffect> = Vec::new();
        trace.push(
            GpuEffect::SwapchainCreated {
                extent: caps.current_extent,
                image_count: swapchain.config.image_count,
            },
        );
        let driver = FrameDriver {
            swapchain,
            allocator: FrameAllocator::new(),
            minimized: false,
            closed: false,
            phase: FramePhase::Idle,
            trace,
        };
        proof {
            lemma_sync_of_push(
                Seq::<GpuEffect>::empty(),
                GpuEffect::SwapchainCreated {
                    extent: caps.current_extent,
                    image_count: swapchain.config.image_count,
                },
            );
            assert(driver@.trace =~= Seq::<GpuEffect>::empty().push(
                GpuEffect::SwapchainCreated {
                    extent: caps.current_extent,
                    image_count: swapchain.config.image_count,
                },
            ));
            assert(sync_of(driver@.trace) =~= Seq::<GpuEffect>::empty());
        }
        Ok(driver)
    }

    /// Handles a resize event between frames. A zero extent suspends
    /// rendering with no device call at all; a nonzero extent recreates the
    /// swapchain at the reported drawable size and clears the suspension.
    pub fn on_resized(&mut self, drawable: Extent)
        requires
            old(self)@.wf(),
            !old(self).closed,
            old(self).phase is Idle,
        ensures
            final(self)@ == old(self)@.spec_on_resized(drawable),
            final(self)@.wf(),
            final(self).minimized == drawable.is_zero(),
            drawable.is_zero() ==> final(self).trace@ == old(self).trace@,
            !drawable.is_zero() ==> final(self).swapchain.state is Valid
                && final(self).swapchain.config.extent == drawable,
            final(self).swapchain.config.format == old(self).swapchain.config.format,
            final(self).swapchain.config.present_mode == old(self).swapchain.config.present_mode,
            final(self).swapchain.config.image_count == old(self).swapchain.config.image_count,
            final(self).phase is Idle,
            !final(self).closed,
    {
        let ghost pre = self@;
        let image_count = self.swapchain.config.image_count;
        let ok = self.swapchain.recreate_swapchain(drawable);
        if ok {
            self.minimized = false;
            self.trace.push(GpuEffect::SwapchainRecreated { extent: drawable, image_count });
        } else {
            self.minimized = true;
        }
        proof {
            if ok {
                lemma_sync_of_push(
                    pre.trace,
                    GpuEffect::SwapchainRecreated { extent: drawable, image_count },
                );
            }
            assert(self@ == pre.spec_on_resized(drawable));
        }
    }

    /// Begins a redraw request: skipped entirely — no acquisition, no
    /// allocation, no recording — while the surface is minimized.
    pub fn begin_frame(&mut self) -> (proceed: bool)
        requires
            old(self)@.wf(),
            !old(self).closed,
            old(self).phase is Idle,
        ensures
            ({
                let (d, p) = old(self)@.spec_begin_frame();
                final(self)@ == d && proceed == p
            }),
            final(self)@.wf(),
            proceed == !old(self).minimized,
            final(self).trace@ == old(self).trace@,
            !proceed ==> final(self)@ == old(self)@,
            proceed ==> final(self).phase == (FramePhase::Acquiring { retried: false }),
    {
        if self.minimized {
            false
        } else {
            self.phase = FramePhase::Acquiring { retried: false };
            true
        }
    }

    /// Feeds the outcome of one acquisition attempt in. A ready image opens
    /// the frame; a suboptimal report asks for the one recreation of this
    /// redraw, and if it repeats after that, gives the frame up and suspends.
    pub fn acquire_next_image(&mut self, outcome: AcquireOutcome) -> (decision: AcquireDecision)
        requires
            old(self)@.wf(),
            old(self).phase is Acquiring,
            old(self).swapchain.state is Valid,
            outcome matches AcquireOutcome::Ready { image_index } ==> image_index < old(
                self,
            ).swapchain.image_view_count,
        ensures
            ({
                let (d, dec) = old(self)@.spec_acquire(outcome);
                final(self)@ == d && decision == dec
            }),
            final(self)@.wf(),
            outcome matches AcquireOutcome::Ready { image_index } ==> decision == (
            AcquireDecision::Render { image_index }) && final(self).phase == (
            FramePhase::Rendering { image_index }),
            outcome is Suboptimal && old(self).phase == (FramePhase::Acquiring {
                retried: false,
            }) ==> decision is Recreate && final(self).phase == (FramePhase::Acquiring {
                retried: true,
            }) && final(self).trace@ == old(self).trace@,
            outcome is Suboptimal && old(self).phase == (FramePhase::Acquiring {
                retried: true,
            }) ==> decision is Suspend && final(self).phase is Idle && final(self).minimized
                && final(self).trace@ == old(self).trace@,
    {
        let ghost pre = self@;
        match outcome {
            AcquireOutcome::Ready { image_index } => {
                self.phase = FramePhase::Rendering { image_index };
                self.trace.push(GpuEffect::Acquired { image_index });
                proof {
                    lemma_sync_of_push(pre.trace, GpuEffect::Acquired { image_index });
                    assert(sync_of(self@.trace).drop_last() =~= sync_of(pre.trace));
                }
                AcquireDecision::Render { image_index }
            },
            AcquireOutcome::Suboptimal => {
                self.swapchain.mark_out_of_date();
                match self.phase {
                    FramePhase::Acquiring { retried: false } => {
                        self.phase = FramePhase::Acquiring { retried: true };
                        AcquireDecision::Recreate
                    },
                    _ => {
                        self.phase = FramePhase::Idle;
                        self.minimized = true;
                        AcquireDecision::Suspend
                    },
                }
            },
        }
    }

    /// Performs the one mid-redraw recreation the driver may ask for. On
    /// success the caller acquires once more; on failure (zero drawable
    /// extent) the frame is abandoned and the surface treated as minimized.
    pub fn recreate_for_retry(&mut self, drawable: Extent) -> (ok: bool)
        requires
            old(self)@.wf(),
            old(self).phase == (FramePhase::Acquiring { retried: true }),
        ensures
            ({
                let (d, o) = old(self)@.spec_recreate_retry(drawable);
                final(self)@ == d && ok == o
            }),
            final(self)@.wf(),
            ok == !drawable.is_zero(),
            ok ==> final(self).swapchain.state is Valid && final(self).swapchain.config.extent
                == drawable && final(self).phase == (FramePhase::Acquiring { retried: true }),
            !ok ==> final(self).minimized && final(self).phase is Idle && final(self).trace@
                == old(self).trace@,
            final(self).swapchain.config.format == old(self).swapchain.config.format,
            final(self).swapchain.config.image_count == old(self).swapchain.config.image_count,
    {
        let ghost pre = self@;
        proof {
            assert(pre.swapchain.state is Valid || pre.swapchain.state is OutOfDate);
        }
        let image_count = self.swapchain.config.image_count;
        let ok = self.swapchain.recreate_swapchain(drawable);
        if ok {
            self.trace.push(GpuEffect::SwapchainRecreated { extent: drawable, image_count });
            proof {
                lemma_sync_of_push(
                    pre.trace,
                    GpuEffect::SwapchainRecreated { extent: drawable, image_count },
                );
            }
        } else {
            self.minimized = true;
            self.phase = FramePhase::Idle;
        }
        ok
    }

    /// Renders the acquired frame: stages the mesh into fresh per-frame
    /// buffers, records the fixed command sequence against the acquired
    /// image's view, and logs execution chained after acquisition and
    /// presentation chained after execution. The driver then waits for
    /// presentation before the next frame begins, which is what lets the
    /// arena wrap (`reset_frame`) without per-buffer fences.
    pub fn render_frame(&mut self, mesh: &Mesh, queue_family_index: u32) -> (r: FrameSubmission)
        requires
            old(self)@.wf(),
            old(self).phase is Rendering,
            mesh.wf(),
            mesh.vertices@.len() * VERTEX_ELEMENT_BYTES + mesh.indices@.len()
                * INDEX_ELEMENT_BYTES <= usize::MAX,
        ensures
            final(self)@.wf(),
            final(self).phase is Idle,
            final(self).swapchain == old(self).swapchain,
            final(self).minimized == old(self).minimized,
            final(self).closed == old(self).closed,
            old(self).phase matches FramePhase::Rendering { image_index } ==> {
                &&& r.image_index == image_index
                &&& final(self).trace@ =~= old(self).trace@ + seq![
                    GpuEffect::VertexBufferAllocated { element_count: mesh.vertices@.len() as usize },
                    GpuEffect::IndexBufferAllocated { element_count: mesh.indices@.len() as usize },
                    GpuEffect::DrawRecorded { index_count: mesh.indices@.len() as u32 },
                    GpuEffect::Executed { image_index },
                    GpuEffect::Presented { image_index },
                ]
            },
            r.vertex_buffer.data@ =~= mesh.vertices@,
            r.index_buffer.data@ =~= mesh.indices@,
            r.vertex_buffer.offset == 0,
            r.index_buffer.offset == mesh.vertices@.len() * VERTEX_ELEMENT_BYTES,
            final(self).allocator.cursor == mesh.vertices@.len() * VERTEX_ELEMENT_BYTES
                + mesh.indices@.len() * INDEX_ELEMENT_BYTES,
            r.commands.queue_family_index == queue_family_index,
            r.commands.usage is OneTimeSubmit,
            r.commands.commands@ =~= spec_draw_commands(
                ImageViewInfo { extent: old(self).swapchain.config.extent, layers: 1 },
                0,
                mesh.vertices@.len() as usize,
                (mesh.vertices@.len() * VERTEX_ELEMENT_BYTES) as usize,
                mesh.indices@.len() as usize,
                mesh.indices@.len() as u32,
            ),
            r.image_index < final(self).swapchain.image_view_count,
    {
        let ghost pre = self@;
        let image_index = match self.phase {
            FramePhase::Rendering { image_index } => image_index,
            _ => {
                proof {
                    assert(false);
                }
                0
            },
        };
        self.allocator.reset_frame();
        let vertex_buffer = self.allocator.alloc_vertex_buffer(&mesh.vertices);
        self.trace.push(
            GpuEffect::VertexBufferAllocated { element_count: mesh.vertices.len() },
        );
        let index_buffer = self.allocator.alloc_index_buffer(&mesh.indices);
        self.trace.push(GpuEffect::IndexBufferAllocated { element_count: mesh.indices.len() });
        let index_count = mesh.indices.len() as u32;
        let mut commands = self.allocator.alloc_primary_builder(
            queue_family_index,
            CommandBufferUsage::OneTimeSubmit,
        );
        let target = ImageViewInfo { extent: self.swapchain.config.extent, layers: 1 };
        record_command_buffer(
            &mut commands,
            vertex_buffer.offset,
            vertex_buffer.data.len(),
            index_buffer.offset,
            index_buffer.data.len(),
            index_count,
            &target,
        );
        self.trace.push(GpuEffect::DrawRecorded { index_count });
        self.trace.push(GpuEffect::Executed { image_index });
        self.trace.push(GpuEffect::Presented { image_index });
        self.phase = FramePhase::Idle;
        proof {
            let vb = GpuEffect::VertexBufferAllocated {
                element_count: mesh.vertices@.len() as usize,
            };
            let ib = GpuEffect::IndexBufferAllocated {
                element_count: mesh.indices@.len() as usize,
            };
            let dr = GpuEffect::DrawRecorded { index_count: mesh.indices@.len() as u32 };
            let ex = GpuEffect::Executed { image_index };
            let pr = GpuEffect::Presented { image_index };
            lemma_sync_of_push(pre.trace, vb);
            lemma_sync_of_push(pre.trace.push(vb), ib);
            lemma_sync_of_push(pre.trace.push(vb).push(ib), dr);
            lemma_sync_of_push(pre.trace.push(vb).push(ib).push(dr), ex);
            lemma_sync_of_push(pre.trace.push(vb).push(ib).push(dr).push(ex), pr);
            assert(self@.trace =~= pre.trace.push(vb).push(ib).push(dr).push(ex).push(pr));
            let s_pre = sync_of(pre.trace);
            assert(sync_of(self@.trace) =~= s_pre.push(ex).push(pr));
            assert(s_pre.drop_last().push(GpuEffect::Acquired { image_index }) =~= s_pre);
            lemma_frame_triples_append(s_pre.drop_last(), image_index);
            assert(sync_of(self@.trace) =~= s_pre.drop_last() + seq![
                GpuEffect::Acquired { image_index },
                ex,
                pr,
            ]);
        }
        FrameSubmission { image_index, vertex_buffer, index_buffer, commands }
    }

    /// Handles a close request: tears every owned GPU resource down in
    /// dependency order — pipeline, allocator, swapchain/surface, device —
    /// and shuts the driver.
    pub fn on_close_requested(&mut self)
        requires
            old(self)@.wf(),
            !old(self).closed,
            old(self).phase is Idle,
        ensures
            final(self)@.wf(),
            final(self).closed,
            final(self).minimized,
            final(self).swapchain.state is Destroyed,
            final(self).swapchain.config == old(self).swapchain.config,
            final(self).allocator == old(self).allocator,
            final(self).phase is Idle,
            final(self).trace@ =~= old(self).trace@ + seq![
                GpuEffect::PipelineReleased,
                GpuEffect::AllocatorReleased,
                GpuEffect::SwapchainReleased,
                GpuEffect::DeviceReleased,
            ],
    {
        let ghost pre = self@;
        self.trace.push(GpuEffect::PipelineReleased);
        self.trace.push(GpuEffect::AllocatorReleased);
        self.trace.push(GpuEffect::SwapchainReleased);
        self.trace.push(GpuEffect::DeviceReleased);
        self.swapchain.destroy();
        self.closed = true;
        self.minimized = true;
        proof {
            lemma_sync_of_push(pre.trace, GpuEffect::PipelineReleased);
            lemma_sync_of_push(pre.trace.push(GpuEffect::PipelineReleased), GpuEffect::AllocatorReleased);
            lemma_sync_of_push(
                pre.trace.push(GpuEffect::PipelineReleased).push(GpuEffect::AllocatorReleased),
                GpuEffect::SwapchainReleased,
            );
            lemma_sync_of_push(
                pre.trace.push(GpuEffect::PipelineReleased).push(GpuEffect::AllocatorReleased).push(
                    GpuEffect::SwapchainReleased,
                ),
                GpuEffect::DeviceReleased,
            );
            assert(self@.trace =~= pre.trace.push(GpuEffect::PipelineReleased).push(
                GpuEffect::AllocatorReleased,
            ).push(GpuEffect::SwapchainReleased).push(GpuEffect::DeviceReleased));
            assert(sync_of(self@.trace) =~= sync_of(pre.trace));
        }
    }
}

} // verus!
