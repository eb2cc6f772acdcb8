use vstd::prelude::*;
use crate::error::DrawError;
use crate::particle::Particle;
use crate::store::ParticleStore;

verus! {

/// Where a `Scene` stands between commands: ready for a frame, or inside a
/// draw pass waiting for the glue to report back.
#[derive(Clone, Copy, Debug, PartialEq, Eq, Structural)]
pub enum Phase {
    /// No draw pass is under way.
    Ready,
    /// A draw pass was begun; the glue is creating the vertex buffer.
    BufferPending,
    /// The vertex data was handed out and the store's read access is held;
    /// the glue is resolving the position attribute.
    AttribPending,
}

/// Ghost image of a `Scene`.
pub struct SceneView {
    pub phase: Phase,
    pub particles: Seq<Particle>,
    pub readers: nat,
    pub writing: bool,
    pub context: u32,
    pub program: u32,
    pub width: u32,
    pub height: u32,
    pub gravity: u32,
    pub should_spawn_particles: bool,
}

/// The "screen size" uniform to set once, right after construction: the
/// surface's width and height in pixels, to be handed to the program as a
/// two-component float vector under the name `screen_size_uniform_name`
/// returns.
#[derive(Clone, Copy, Debug, PartialEq, Eq, Structural)]
pub struct ScreenSizeUniform {
    pub width: u32,
    pub height: u32,
}

/// The next command of a draw pass for the glue to perform.
#[derive(Debug)]
pub enum DrawAction {
    /// Allocate (or reuse) a GPU buffer and report whether a handle came
    /// back.
    CreateBuffer,
    /// Bind the created buffer as the active array buffer, upload
    /// `vertices` — each entry an IEEE-754 single-precision bit pattern —
    /// as static draw data, then resolve the position attribute (named by
    /// `position_attribute_name`) from `program` and report its location.
    UploadAndLocate { program: u32, vertices: Vec<u32> },
    /// Enable vertex attribute `attribute_index` and configure it to read
    /// `components` floats per vertex, tightly packed; clear the color
    /// buffer to the given color (bit patterns again); then issue one
    /// point-primitive draw call of `count` vertices starting at `first`.
    Finish {
        attribute_index: u32,
        components: u32,
        normalized: bool,
        stride: u32,
        offset: u32,
        clear_red: u32,
        clear_green: u32,
        clear_blue: u32,
        clear_alpha: u32,
        first: u32,
        count: usize,
    },
}

/// The flat vertex buffer for a sequence of particles: the two position
/// coordinates of each particle, in insertion order.
pub open spec fn flattened(ps: Seq<Particle>) -> Seq<u32>
    decreases ps.len(),
{
    if ps.len() == 0 {
        Seq::<u32>::empty()
    } else {
        flattened(ps.drop_last()).push(ps.last().pos.x).push(ps.last().pos.y)
    }
}

/// LAW: the vertex buffer a draw pass uploads holds exactly two entries
/// per particle.
pub proof fn lemma_flattened_len(ps: Seq<Particle>)
    ensures
        flattened(ps).len() == 2 * ps.len(),
    decreases ps.len(),
{
    if ps.len() > 0 {
        lemma_flattened_len(ps.drop_last());
    }
}

/// LAW: the vertex buffer is laid out pairwise in insertion order — entry
/// `2·i` is the x coordinate and entry `2·i + 1` the y coordinate of the
/// `i`-th particle added.
pub proof fn lemma_flattened_layout(ps: Seq<Particle>)
    ensures
        flattened(ps).len() == 2 * ps.len(),
        forall|i: int|
            0 <= i < ps.len() ==> flattened(ps)[2 * i] == ps[i].pos.x && flattened(ps)[2 * i + 1]
                == ps[i].pos.y,
    decreases ps.len(),
{
    lemma_flattened_len(ps);
    if ps.len() > 0 {
        lemma_flattened_layout(ps.drop_last());
        assert forall|i: int| 0 <= i < ps.len() implies flattened(ps)[2 * i] == ps[i].pos.x
            && flattened(ps)[2 * i + 1] == ps[i].pos.y by {
            if i < ps.len() - 1 {
                assert(ps.drop_last()[i] == ps[i]);
            }
        }
    }
}

/// The name under which the shader program exposes its screen-size
/// uniform.
pub fn screen_size_uniform_name() -> (r: &'static str)
    ensures
        r@ == "screenSize"@,
{
    "screenSize"
}

/// The name under which the shader program exposes its per-vertex
/// position attribute.
pub fn position_attribute_name() -> (r: &'static str)
    ensures
        r@ == "spritePosition"@,
{
    "spritePosition"
}

/// Judge the bootstrap layer's attempt to acquire the rendering context:
/// accept the handle, or propagate the failure unchanged as
/// `ContextUnavailable`.
pub fn acquire_context(context: Option<u32>) -> (r: Result<u32, DrawError>)
    ensures
        context matches Some(c) ==> (r matches Ok(h) && h == c),
        context is None ==> (r matches Err(e) && e is ContextUnavailable),
{
    match context {
        Some(c) => Ok(c),
        None => Err(DrawError::ContextUnavailable),
    }
}

/// Owns the rendering-context handle, the linked program, the particle
/// store and the per-frame scene parameters, and orchestrates each draw
/// pass.
///
/// Like the shader build, a draw pass runs as a state machine against the
/// outside driver: `begin_draw` opens a pass, and each report the glue
/// hands back yields the next command or a terminal `DrawError`.
pub struct Scene {
    phase: Phase,
    store: ParticleStore,
    context: u32,
    program: u32,
    width: u32,
    height: u32,
    gravity: u32,
    should_spawn_particles: bool,
}

impl View for Scene {
    type V = SceneView;

    closed spec fn view(&self) -> SceneView {
        SceneView {
            phase: self.phase,
            particles: self.store@.particles,
            readers: self.store@.readers,
            writing: self.store@.writing,
            context: self.context,
            program: self.program,
            width: self.width,
            height: self.height,
            gravity: self.gravity,
            should_spawn_particles: self.should_spawn_particles,
        }
    }
}

impl Scene {
    /// The scene's internal invariant: while a draw pass holds the store's
    /// read access, that access is really live, so finishing or aborting
    /// the pass can release it.
    pub open spec fn wf(self) -> bool {
        self@.phase is AttribPending ==> self@.readers > 0
    }

    /// The parts of a scene no draw pass or particle insertion may touch:
    /// the owned handles and the per-frame parameters.
    pub open spec fn fixed_part_unchanged(pre: SceneView, post: SceneView) -> bool {
        post.context == pre.context && post.program == pre.program && post.width == pre.width
            && post.height == pre.height && post.gravity == pre.gravity
            && post.should_spawn_particles == pre.should_spawn_particles
    }

    /// Construct a scene over an acquired context handle and an already
    /// linked program, with an empty particle store.
    ///
    /// The returned uniform value is the surface size captured now, to be
    /// set once: nothing later re-reads the surface, so resizing it
    /// without reconstructing the scene leaves both the stored size and
    /// the uniform at the values captured here — current, deliberately
    /// simple behavior.
    pub fn new(context: u32, program: u32, width: u32, height: u32) -> (r: (
        Scene,
        ScreenSizeUniform,
    ))
        ensures
            r.0.wf(),
            r.0@.phase is Ready,
            r.0@.particles == Seq::<Particle>::empty(),
            r.0@.readers == 0,
            !r.0@.writing,
            r.0@.context == context,
            r.0@.program == program,
            r.0@.width == width,
            r.0@.height == height,
            r.0@.gravity == 0x3F800000u32,
            !r.0@.should_spawn_particles,
            r.1.width == width,
            r.1.height == height,
    {
        let scene = Scene {
            phase: Phase::Ready,
            store: ParticleStore::new(),
            context,
            program,
            width,
            height,
            // bit pattern of a unit gravity scalar; inert in current scope
            gravity: 0x3F800000u32,
            should_spawn_particles: false,
        };
        (scene, ScreenSizeUniform { width, height })
    }

    /// Append a particle, delegating to the store's guarded `add`:
    /// `BorrowConflict` is surfaced unchanged and leaves the contents
    /// untouched.
    pub fn add_particle(&mut self, p: Particle) -> (r: Result<(), DrawError>)
        requires
            old(self).wf(),
        ensures
            final(self).wf(),
            Self::fixed_part_unchanged(old(self)@, final(self)@),
            final(self)@.phase == old(self)@.phase,
            final(self)@.readers == old(self)@.readers,
            final(self)@.writing == old(self)@.writing,
            old(self)@.readers == 0 && !old(self)@.writing ==> r is Ok && final(self)@.particles
                == old(self)@.particles.push(p),
            !(old(self)@.readers == 0 && !old(self)@.writing) ==> (r matches Err(e)
                && e is BorrowConflict) && final(self)@.particles == old(self)@.particles,
    {
        self.store.add(p)
    }

    /// Open a draw pass: the first command allocates the vertex buffer.
    pub fn begin_draw(&mut self) -> (a: DrawAction)
        requires
            old(self).wf(),
            old(self)@.phase is Ready,
        ensures
            final(self).wf(),
            a is CreateBuffer,
            Self::fixed_part_unchanged(old(self)@, final(self)@),
            final(self)@.phase is BufferPending,
            final(self)@.particles == old(self)@.particles,
            final(self)@.readers == old(self)@.readers,
            final(self)@.writing == old(self)@.writing,
    {
        self.phase = Phase::BufferPending;
        DrawAction::CreateBuffer
    }

    /// Consume the buffer-allocation report.  If no handle came back the
    /// pass aborts with `BufferCreationFailed`; if the store's read access
    /// cannot be taken it aborts with `BorrowConflict`; otherwise the pass
    /// takes the read access, flattens every particle's position into the
    /// vertex buffer — exactly two entries per particle, in insertion
    /// order — and hands it out for upload.
    pub fn buffer_created(&mut self, created: bool) -> (r: Result<DrawAction, DrawError>)
        requires
            old(self).wf(),
            old(self)@.phase is BufferPending,
            old(self)@.readers < usize::MAX,
        ensures
            final(self).wf(),
            Self::fixed_part_unchanged(old(self)@, final(self)@),
            final(self)@.particles == old(self)@.particles,
            final(self)@.writing == old(self)@.writing,
            !created ==> (r matches Err(e) && e is BufferCreationFailed)
                && final(self)@.phase is Ready && final(self)@.readers == old(self)@.readers,
            created && old(self)@.writing ==> (r matches Err(e) && e is BorrowConflict)
                && final(self)@.phase is Ready && final(self)@.readers == old(self)@.readers,
            created && !old(self)@.writing ==> (r matches Ok(a) && a matches
                DrawAction::UploadAndLocate { program, vertices } && program == old(
                self,
            )@.program && vertices@ == flattened(old(self)@.particles))
                && final(self)@.phase is AttribPending && final(self)@.readers == old(
                self,
            )@.readers + 1,
    {
        if !created {
            self.phase = Phase::Ready;
            return Err(DrawError::BufferCreationFailed);
        }
        if !self.store.try_begin_read() {
            self.phase = Phase::Ready;
            return Err(DrawError::BorrowConflict);
        }
        let ghost ps = self.store@.particles;
        let n = self.store.len();
        let mut vertices: Vec<u32> = Vec::new();
        let mut i: usize = 0;
        while i < n
            invariant
                n == ps.len(),
                i <= n,
                self.store@.particles == ps,
                vertices@ == flattened(ps.take(i as int)),
            decreases n - i,
        {
            let p = self.store.get(i);
            vertices.push(p.pos.x);
            vertices.push(p.pos.y);
            proof {
                let t = ps.take(i + 1 as int);
                assert(t.drop_last() =~= ps.take(i as int));
                assert(t.last() == ps[i as int]);
            }
            i = i + 1;
        }
        proof {
            assert(ps.take(n as int) =~= ps);
        }
        self.phase = Phase::AttribPending;
        Ok(DrawAction::UploadAndLocate { program: self.program, vertices })
    }

    /// Consume the attribute-location report and close the pass, releasing
    /// the store's read access either way.  A negative location means the
    /// program exposes no attribute of that name: the pass aborts with
    /// `AttributeUnavailable`.  Otherwise the final command configures the
    /// attribute to read two tightly packed, unnormalized floats per
    /// vertex, clears to opaque black, and draws `count` points — `count`
    /// being exactly the number of particles held, zero included.
    pub fn attribute_located(&mut self, location: i32) -> (r: Result<DrawAction, DrawError>)
        requires
            old(self).wf(),
            old(self)@.phase is AttribPending,
        ensures
            final(self).wf(),
            Self::fixed_part_unchanged(old(self)@, final(self)@),
            final(self)@.particles == old(self)@.particles,
            final(self)@.writing == old(self)@.writing,
            final(self)@.phase is Ready,
            final(self)@.readers == old(self)@.readers - 1,
            location < 0 ==> (r matches Err(e) && e is AttributeUnavailable),
            location >= 0 ==> (r matches Ok(a) && a matches DrawAction::Finish {
                attribute_index,
                components,
                normalized,
                stride,
                offset,
                clear_red,
                clear_green,
                clear_blue,
                clear_alpha,
                first,
                count,
            } && attribute_index == location as u32 && components == 2 && !normalized && stride
                == 0 && offset == 0 && clear_red == 0 && clear_green == 0 && clear_blue == 0
                && clear_alpha == 0x3F800000u32 && first == 0 && count == old(
                self,
            )@.particles.len()),
    {
        self.store.end_read();
        self.phase = Phase::Ready;
        if location < 0 {
            return Err(DrawError::AttributeUnavailable);
        }
        let count = self.store.len();
        Ok(
            DrawAction::Finish {
                attribute_index: location as u32,
                components: 2,
                normalized: false,
                stride: 0,
                offset: 0,
                clear_red: 0,
                clear_green: 0,
                clear_blue: 0,
                // bit pattern of an opaque alpha of one
                clear_alpha: 0x3F800000u32,
                first: 0,
                count,
            },
        )
    }

    /// Read-only query of the surface width captured at construction.
    pub fn width(&self) -> (w: u32)
        ensures
            w == self@.width,
    {
        self.width
    }

    /// Read-only query of the surface height captured at construction.
    pub fn height(&self) -> (h: u32)
        ensures
            h == self@.height,
    {
        self.height
    }

    /// Read-only query of the rendering-context handle.
    pub fn get_context(&self) -> (c: u32)
        ensures
            c == self@.context,
    {
        self.context
    }

    /// The spawn-enable flag.  No current operation reads it; it is kept,
    /// writable, for a future per-frame spawning step.
    pub fn should_spawn_particles(&self) -> (b: bool)
        ensures
            b == self@.should_spawn_particles,
    {
        self.should_spawn_particles
    }

    /// Set the spawn-enable flag; nothing else of the scene changes.
    pub fn set_should_spawn_particles(&mut self, value: bool)
        requires
            old(self).wf(),
        ensures
            final(self).wf(),
            final(self)@.should_spawn_particles == value,
            final(self)@.phase == old(self)@.phase,
            final(self)@.particles == old(self)@.particles,
            final(self)@.readers == old(self)@.readers,
            final(self)@.writing == old(self)@.writing,
            final(self)@.context == old(self)@.context,
            final(self)@.program == old(self)@.program,
            final(self)@.width == old(self)@.width,
            final(self)@.height == old(self)@.height,
            final(self)@.gravity == old(self)@.gravity,
    {
        self.should_spawn_particles = value;
    }
}

} // verus!
