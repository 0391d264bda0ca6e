//! The render targets built on a swapchain, and their rebuild in a fixed
//! order: swapchain, render pass, pipeline, framebuffers, command buffers.
//!
//! The handles are opaque to this module; the caller builds each one and
//! hands it over. A stage that fails stops the rebuild and leaves it and every
//! later stage at its previous value.

use vstd::prelude::*;

verus! {

/// One stage of a rebuild, in the order the stages run.
#[derive(Clone, Copy, Debug, PartialEq, Eq, Structural)]
pub enum Stage {
    Swapchain,
    RenderPass,
    Pipeline,
    Framebuffers,
    CommandBuffers,
}

impl Stage {
    /// Position of the stage in the rebuild order, from 0.
    pub open spec fn index(self) -> int {
        match self {
            Stage::Swapchain => 0,
            Stage::RenderPass => 1,
            Stage::Pipeline => 2,
            Stage::Framebuffers => 3,
            Stage::CommandBuffers => 4,
        }
    }
}

/// The stage at position `i` of the rebuild order.
pub open spec fn stage_at(i: int) -> Stage {
    if i <= 0 {
        Stage::Swapchain
    } else if i == 1 {
        Stage::RenderPass
    } else if i == 2 {
        Stage::Pipeline
    } else if i == 3 {
        Stage::Framebuffers
    } else {
        Stage::CommandBuffers
    }
}

/// What one stage of a rebuild produced.
pub enum Built<S, I, R, P, F, C> {
    /// A new swapchain with its images.
    Swapchain(S, Vec<I>),
    RenderPass(R),
    Pipeline(P),
    /// One framebuffer per swapchain image.
    Framebuffers(Vec<F>),
    /// One recorded command buffer per swapchain image.
    CommandBuffers(Vec<C>),
}

impl<S, I, R, P, F, C> Built<S, I, R, P, F, C> {
    pub open spec fn stage_spec(&self) -> Stage {
        match self {
            Built::Swapchain(..) => Stage::Swapchain,
            Built::RenderPass(..) => Stage::RenderPass,
            Built::Pipeline(..) => Stage::Pipeline,
            Built::Framebuffers(..) => Stage::Framebuffers,
            Built::CommandBuffers(..) => Stage::CommandBuffers,
        }
    }

    /// The stage that produced this value.
    pub fn stage(&self) -> (r: Stage)
        ensures
            r == self.stage_spec(),
    {
        match self {
            Built::Swapchain(..) => Stage::Swapchain,
            Built::RenderPass(..) => Stage::RenderPass,
            Built::Pipeline(..) => Stage::Pipeline,
            Built::Framebuffers(..) => Stage::Framebuffers,
            Built::CommandBuffers(..) => Stage::CommandBuffers,
        }
    }
}

/// The swapchain and everything drawn through it: one render pass, one
/// pipeline, and per swapchain image a framebuffer and a command buffer.
pub struct RenderTargets<S, I, R, P, F, C> {
    pub swapchain: S,
    pub images: Vec<I>,
    pub render_pass: R,
    pub pipeline: P,
    pub framebuffers: Vec<F>,
    pub command_buffers: Vec<C>,
}

impl<S, I, R, P, F, C> RenderTargets<S, I, R, P, F, C> {
    /// One framebuffer and one command buffer per swapchain image.
    pub open spec fn aligned(&self) -> bool {
        &&& self.framebuffers@.len() == self.images@.len()
        &&& self.command_buffers@.len() == self.images@.len()
    }

    /// The targets with the output of one stage in place, or `None` where a
    /// per-image stage did not produce one value per swapchain image.
    pub open spec fn install_spec(self, b: Built<S, I, R, P, F, C>) -> Option<Self> {
        match b {
            Built::Swapchain(s, imgs) => Some(RenderTargets { swapchain: s, images: imgs, ..self }),
            Built::RenderPass(r) => Some(RenderTargets { render_pass: r, ..self }),
            Built::Pipeline(p) => Some(RenderTargets { pipeline: p, ..self }),
            Built::Framebuffers(f) => if f@.len() == self.images@.len() {
                Some(RenderTargets { framebuffers: f, ..self })
            } else {
                None
            },
            Built::CommandBuffers(c) => if c@.len() == self.images@.len()
                && self.framebuffers@.len() == self.images@.len() {
                Some(RenderTargets { command_buffers: c, ..self })
            } else {
                None
            },
        }
    }

    /// The targets hold what `b` produced, in the place of its stage.
    pub open spec fn holds(self, b: Built<S, I, R, P, F, C>) -> bool {
        match b {
            Built::Swapchain(s, imgs) => self.swapchain == s && self.images == imgs,
            Built::RenderPass(r) => self.render_pass == r,
            Built::Pipeline(p) => self.pipeline == p,
            Built::Framebuffers(f) => self.framebuffers == f,
            Built::CommandBuffers(c) => self.command_buffers == c,
        }
    }

    /// The two targets have the same value in the place of stage `i`.
    pub open spec fn agrees_at(self, other: Self, i: int) -> bool {
        if i == 0 {
            self.swapchain == other.swapchain && self.images == other.images
        } else if i == 1 {
            self.render_pass == other.render_pass
        } else if i == 2 {
            self.pipeline == other.pipeline
        } else if i == 3 {
            self.framebuffers == other.framebuffers
        } else {
            self.command_buffers == other.command_buffers
        }
    }

    /// Targets from a first, complete build; `None` where the framebuffers or
    /// the command buffers are not one per swapchain image.
    pub fn new(
        swapchain: S,
        images: Vec<I>,
        render_pass: R,
        pipeline: P,
        framebuffers: Vec<F>,
        command_buffers: Vec<C>,
    ) -> (r: Option<Self>)
        ensures
            r is Some <==> framebuffers@.len() == images@.len() && command_buffers@.len()
                == images@.len(),
            r matches Some(t) ==> t.aligned() && t == (RenderTargets {
                swapchain,
                images,
                render_pass,
                pipeline,
                framebuffers,
                command_buffers,
            }),
    {
        if framebuffers.len() == images.len() && command_buffers.len() == images.len() {
            Some(RenderTargets { swapchain, images, render_pass, pipeline, framebuffers, command_buffers })
        } else {
            None
        }
    }

    /// Puts the output of one stage in place. Returns whether it was taken:
    /// framebuffers and command buffers are refused, and the targets left
    /// unchanged, unless there is one per swapchain image (the command
    /// buffers also need the framebuffers to be so).
    pub fn install(&mut self, b: Built<S, I, R, P, F, C>) -> (r: bool)
        ensures
            r == old(self).install_spec(b) is Some,
            r ==> *final(self) == old(self).install_spec(b)->Some_0,
            !r ==> *final(self) == *old(self),
    {
        match b {
            Built::Swapchain(s, imgs) => {
                self.swapchain = s;
                self.images = imgs;
                true
            },
            Built::RenderPass(r) => {
                self.render_pass = r;
                true
            },
            Built::Pipeline(p) => {
                self.pipeline = p;
                true
            },
            Built::Framebuffers(f) => {
                if f.len() == self.images.len() {
                    self.framebuffers = f;
                    true
                } else {
                    false
                }
            },
            Built::CommandBuffers(c) => {
                if c.len() == self.images.len() && self.framebuffers.len() == self.images.len() {
                    self.command_buffers = c;
                    true
                } else {
                    false
                }
            },
        }
    }
}

/// How far a rebuild has come.
#[derive(Clone, Copy, Debug, PartialEq, Eq, Structural)]
pub enum Rebuild {
    /// The stage to build next.
    Next(Stage),
    /// Every stage was built and put in place.
    Done,
    /// The stage that failed; it and the later ones kept their old values.
    Failed(Stage),
}

/// The state after stage `st` was put in place.
pub open spec fn after_spec(st: Stage) -> Rebuild {
    match st {
        Stage::Swapchain => Rebuild::Next(Stage::RenderPass),
        Stage::RenderPass => Rebuild::Next(Stage::Pipeline),
        Stage::Pipeline => Rebuild::Next(Stage::Framebuffers),
        Stage::Framebuffers => Rebuild::Next(Stage::CommandBuffers),
        Stage::CommandBuffers => Rebuild::Done,
    }
}

impl Rebuild {
    /// One step: the awaited stage's output (`None` where building it failed)
    /// is put in place and the rebuild moves on, or the rebuild fails at that
    /// stage. A finished or failed rebuild takes no more steps.
    pub open spec fn advance_spec<S, I, R, P, F, C>(
        self,
        t: RenderTargets<S, I, R, P, F, C>,
        built: Option<Built<S, I, R, P, F, C>>,
    ) -> (Rebuild, RenderTargets<S, I, R, P, F, C>) {
        match self {
            Rebuild::Next(st) => match built {
                Some(b) => if b.stage_spec() == st {
                    match t.install_spec(b) {
                        Some(t2) => (after_spec(st), t2),
                        None => (Rebuild::Failed(st), t),
                    }
                } else {
                    (Rebuild::Failed(st), t)
                },
                None => (Rebuild::Failed(st), t),
            },
            _ => (self, t),
        }
    }

    /// A rebuild that starts with the swapchain.
    pub fn start() -> (r: Rebuild)
        ensures
            r == Rebuild::Next(Stage::Swapchain),
    {
        Rebuild::Next(Stage::Swapchain)
    }

    /// The stage to build next, if the rebuild is still going.
    pub fn next_stage(&self) -> (r: Option<Stage>)
        ensures
            r == (match *self {
                Rebuild::Next(st) => Some(st),
                _ => None,
            }),
    {
        match *self {
            Rebuild::Next(st) => Some(st),
            _ => None,
        }
    }

    /// Takes the outcome of building the awaited stage and puts it in place.
    /// Output of another stage counts as a failure of the awaited one.
    pub fn advance<S, I, R, P, F, C>(
        &mut self,
        targets: &mut RenderTargets<S, I, R, P, F, C>,
        built: Option<Built<S, I, R, P, F, C>>,
    )
        ensures
            (*final(self), *final(targets)) == old(self).advance_spec(*old(targets), built),
    {
        match *self {
            Rebuild::Next(st) => match built {
                Some(b) => {
                    if b.stage() == st {
                        if targets.install(b) {
                            *self = match st {
                                Stage::Swapchain => Rebuild::Next(Stage::RenderPass),
                                Stage::RenderPass => Rebuild::Next(Stage::Pipeline),
                                Stage::Pipeline => Rebuild::Next(Stage::Framebuffers),
                                Stage::Framebuffers => Rebuild::Next(Stage::CommandBuffers),
                                Stage::CommandBuffers => Rebuild::Done,
                            };
                        } else {
                            *self = Rebuild::Failed(st);
                        }
                    } else {
                        *self = Rebuild::Failed(st);
                    }
                },
                None => {
                    *self = Rebuild::Failed(st);
                },
            },
            _ => {},
        }
    }
}

/// The state and the targets after the first `n` steps of a rebuild that
/// starts from `t0`, the step at position `i` being handed `steps[i]`.
pub open spec fn run_spec<S, I, R, P, F, C>(
    t0: RenderTargets<S, I, R, P, F, C>,
    steps: Seq<Option<Built<S, I, R, P, F, C>>>,
    n: nat,
) -> (Rebuild, RenderTargets<S, I, R, P, F, C>)
    decreases n,
{
    if n == 0 {
        (Rebuild::Next(Stage::Swapchain), t0)
    } else {
        let (r, t) = run_spec(t0, steps, (n - 1) as nat);
        r.advance_spec(t, steps[n - 1])
    }
}

/// Step `i` produced the output of stage `i`, and `t` holds it.
pub open spec fn step_in_place<S, I, R, P, F, C>(
    t: RenderTargets<S, I, R, P, F, C>,
    step: Option<Built<S, I, R, P, F, C>>,
    i: int,
) -> bool {
    match step {
        Some(b) => b.stage_spec() == stage_at(i) && t.holds(b),
        None => false,
    }
}

proof fn lemma_install_frame<S, I, R, P, F, C>(
    t: RenderTargets<S, I, R, P, F, C>,
    b: Built<S, I, R, P, F, C>,
)
    requires
        t.install_spec(b) is Some,
    ensures
        t.install_spec(b)->Some_0.holds(b),
        forall|i: int|
            0 <= i < 5 && i != b.stage_spec().index() ==> #[trigger] t.install_spec(
                b,
            )->Some_0.agrees_at(t, i),
        b.stage_spec() == Stage::CommandBuffers ==> t.install_spec(b)->Some_0.aligned(),
{
    let u = t.install_spec(b)->Some_0;
    assert forall|i: int| 0 <= i < 5 && i != b.stage_spec().index() implies #[trigger] u.agrees_at(t, i) by {
        match b {
            Built::Swapchain(..) => {},
            Built::RenderPass(..) => {},
            Built::Pipeline(..) => {},
            Built::Framebuffers(..) => {},
            Built::CommandBuffers(..) => {},
        }
    }
}

proof fn lemma_holds_kept<S, I, R, P, F, C>(
    t: RenderTargets<S, I, R, P, F, C>,
    u: RenderTargets<S, I, R, P, F, C>,
    step: Option<Built<S, I, R, P, F, C>>,
    i: int,
)
    requires
        step_in_place(t, step, i),
        u.agrees_at(t, i),
        0 <= i < 5,
    ensures
        step_in_place(u, step, i),
{
}

proof fn lemma_run_prefix<S, I, R, P, F, C>(
    t0: RenderTargets<S, I, R, P, F, C>,
    steps: Seq<Option<Built<S, I, R, P, F, C>>>,
    n: nat,
)
    requires
        n <= 5,
        n <= steps.len(),
    ensures
        ({
            let (r, t) = run_spec(t0, steps, n);
            &&& r matches Rebuild::Next(st) ==> st.index() == n
                && (forall|j: int| 0 <= j < n ==> #[trigger] step_in_place(t, steps[j], j))
                && (forall|j: int| n <= j < 5 ==> #[trigger] t.agrees_at(t0, j))
            &&& r matches Rebuild::Failed(st) ==> st.index() < n
                && (forall|j: int| 0 <= j < st.index() ==> #[trigger] step_in_place(t, steps[j], j))
                && (forall|j: int| st.index() <= j < 5 ==> #[trigger] t.agrees_at(t0, j))
            &&& r is Done ==> n == 5 && t.aligned()
                && (forall|j: int| 0 <= j < 5 ==> #[trigger] step_in_place(t, steps[j], j))
        }),
    decreases n,
{
    if n > 0 {
        lemma_run_prefix(t0, steps, (n - 1) as nat);
        let (r, t) = run_spec(t0, steps, (n - 1) as nat);
        let (r2, t2) = r.advance_spec(t, steps[n - 1]);
        assert(run_spec(t0, steps, n) == (r2, t2));
        match r {
            Rebuild::Next(st) => {
                match steps[n - 1] {
                    Some(b) => {
                        if b.stage_spec() == st && t.install_spec(b) is Some {
                            lemma_install_frame(t, b);
                            assert(t2 == t.install_spec(b)->Some_0);
                            assert forall|j: int| 0 <= j < n implies #[trigger] step_in_place(t2, steps[j], j) by {
                                if j < n - 1 {
                                    assert(t2.agrees_at(t, j));
                                    lemma_holds_kept(t, t2, steps[j], j);
                                }
                            }
                            assert forall|j: int| n <= j < 5 implies #[trigger] t2.agrees_at(t0, j) by {
                                assert(t2.agrees_at(t, j));
                                assert(t.agrees_at(t0, j));
                            }
                        }
                    },
                    None => {},
                }
            },
            _ => {},
        }
    }
}

/// A rebuild runs its stages strictly in order: swapchain, render pass,
/// pipeline, framebuffers, command buffers. Where it fails at a stage, every
/// earlier stage holds its new output and that stage and every later one
/// hold their old values; where it completes, every stage holds its new
/// output and there is one framebuffer and one command buffer per
/// swapchain image.
pub proof fn lemma_rebuild_in_order<S, I, R, P, F, C>(
    t0: RenderTargets<S, I, R, P, F, C>,
    steps: Seq<Option<Built<S, I, R, P, F, C>>>,
)
    requires
        steps.len() == 5,
    ensures
        ({
            let (r, t) = run_spec(t0, steps, 5);
            &&& r is Done || r is Failed
            &&& r matches Rebuild::Failed(st) ==> (forall|j: int|
                0 <= j < st.index() ==> #[trigger] step_in_place(t, steps[j], j)) && (forall|j: int|
                st.index() <= j < 5 ==> #[trigger] t.agrees_at(t0, j))
            &&& r is Done ==> t.aligned() && (forall|j: int|
                0 <= j < 5 ==> #[trigger] step_in_place(t, steps[j], j))
        }),
{
    lemma_run_prefix(t0, steps, 5);
}

/// The targets that a completed rebuild leaves behind have one framebuffer
/// and one command buffer per swapchain image, whatever they held before.
pub proof fn lemma_completed_rebuild_aligned<S, I, R, P, F, C>(
    r: Rebuild,
    t: RenderTargets<S, I, R, P, F, C>,
    built: Option<Built<S, I, R, P, F, C>>,
)
    ensures
        r.advance_spec(t, built).0 is Done && !(r is Done) ==> r.advance_spec(t, built).1.aligned(),
{
}

} // verus!
