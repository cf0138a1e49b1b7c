//! The particle simulation: the buffers of per-particle state (positions,
//! velocities, accelerations, and masses where they are not all 1), the
//! compute programs that advance them, and the fixed order in which one step
//! binds, dispatches and synchronizes them.

use vstd::prelude::*;
use crate::buffer::Buffer;
use crate::command::Command;
use crate::format::{Access, ElementType, PixelFormat};
use crate::program::{Program, ProgramKind};
use crate::stage::{stage_commands, stage_views, Stage, StageView};
use crate::texture::Texture;

verus! {

/// Where a pipeline is in its life.
#[derive(Clone, Copy, Debug, PartialEq, Eq, Structural)]
pub enum Phase {
    /// Between steps: a step may start.
    Ready,
    /// The commands of a step were handed out and the step's last barrier
    /// has not been reported back yet.
    Stepping,
    /// Everything was released. Nothing may follow.
    Terminated,
}

/// Why a pipeline operation was turned down.
#[derive(Clone, Copy, Debug, PartialEq, Eq, Structural)]
pub enum PipelineError {
    /// One of the programs has no compute stage.
    NotCompute,
    /// A program lacks one of the storage blocks its stage binds.
    MissingBlock,
    /// One of the particle buffers has no store.
    NoStore,
    /// The particle buffers differ in length.
    LengthMismatch,
    /// Two of the particle buffers are the same device buffer, or two of
    /// the programs the same device program.
    Aliased,
    /// The initial positions or velocities end in the middle of an element.
    PartialElement,
    /// There are more particles than a buffer can count.
    TooManyParticles,
    /// A step is still in flight.
    Busy,
    /// No step is in flight.
    NotStepping,
    /// The pipeline was terminated.
    Terminated,
}

/// Name of the storage block that holds the particles' positions.
pub open spec fn position_name() -> Seq<char> {
    "position"@
}

/// Name of the storage block that holds the particles' velocities.
pub open spec fn velocity_name() -> Seq<char> {
    "velocity"@
}

/// Name of the storage block that holds the particles' accelerations.
pub open spec fn acceleration_name() -> Seq<char> {
    "acceleration"@
}

/// Name of the storage block that holds the particles' masses.
pub open spec fn mass_name() -> Seq<char> {
    "mass"@
}

/// The workgroup counts of a dispatch over `length` particles: one
/// workgroup per particle along the first dimension.
pub open spec fn spec_particle_grid(length: u32) -> (u32, u32, u32) {
    (length, 1, 1)
}

/// The workgroup counts of a dispatch over a `width` by `height` image:
/// one workgroup per texel.
pub open spec fn spec_image_grid(width: u32, height: u32) -> (u32, u32, u32) {
    (width, height, 1)
}

#[verifier::when_used_as_spec(spec_particle_grid)]
pub fn particle_grid(length: u32) -> (g: (u32, u32, u32))
    ensures
        g == spec_particle_grid(length),
{
    (length, 1, 1)
}

#[verifier::when_used_as_spec(spec_image_grid)]
pub fn image_grid(width: u32, height: u32) -> (g: (u32, u32, u32))
    ensures
        g == spec_image_grid(width, height),
{
    (width, height, 1)
}

/// `cs` written `n` times in a row.
pub open spec fn repeated(cs: Seq<Command>, n: nat) -> Seq<Command>
    decreases n,
{
    if n == 0 {
        Seq::empty()
    } else {
        repeated(cs, (n - 1) as nat) + cs
    }
}

/// The command that binds `buffer` to storage block `block` of `program`,
/// through the binding point of the same number.
pub open spec fn bind_block(program: u32, block: u32, buffer: u32) -> Command {
    Command::BindStorageBuffer { program, block, point: block, buffer }
}

/// Where the gravity stage finds the particles' masses.
#[derive(Clone, Copy, Debug, PartialEq, Eq, Structural)]
pub struct MassBinding {
    /// Index of the mass block in the gravity program.
    pub block: u32,
    /// Handle of the mass buffer.
    pub buffer: u32,
}

/// Everything the physics stages of a step depend on: the handles of the
/// programs and buffers, the block indices resolved at construction, and
/// the particle count.
#[derive(Clone, Copy, Debug, PartialEq, Eq, Structural)]
pub struct Layout {
    /// Handle of the gravity program.
    pub gravity: u32,
    /// Handle of the integration program.
    pub integrate: u32,
    /// Handle of the position buffer.
    pub position: u32,
    /// Handle of the velocity buffer.
    pub velocity: u32,
    /// Handle of the acceleration buffer.
    pub acceleration: u32,
    /// Index of the position block in the gravity program.
    pub gravity_position: u32,
    /// Index of the acceleration block in the gravity program.
    pub gravity_acceleration: u32,
    /// Index of the position block in the integration program.
    pub integrate_position: u32,
    /// Index of the velocity block in the integration program.
    pub integrate_velocity: u32,
    /// Index of the acceleration block in the integration program.
    pub integrate_acceleration: u32,
    /// Number of particles, fixed at construction.
    pub particles: u32,
    /// The mass buffer, where the pipeline has one. Without it every
    /// particle has unit mass.
    pub mass: Option<MassBinding>,
}

impl Layout {
    /// The buffers are different device buffers, and within a program no
    /// two blocks share an index.
    pub open spec fn valid(self) -> bool {
        &&& self.position != self.velocity
        &&& self.position != self.acceleration
        &&& self.velocity != self.acceleration
        &&& self.gravity_position != self.gravity_acceleration
        &&& self.integrate_position != self.integrate_velocity
        &&& self.integrate_position != self.integrate_acceleration
        &&& self.integrate_velocity != self.integrate_acceleration
        &&& (self.mass matches Some(m) ==> {
            &&& m.block != self.gravity_position
            &&& m.block != self.gravity_acceleration
            &&& m.buffer != self.position
            &&& m.buffer != self.velocity
            &&& m.buffer != self.acceleration
        })
    }

    /// The binding of the mass buffer; empty where there is none.
    pub open spec fn mass_commands(self) -> Seq<Command> {
        match self.mass {
            Some(m) => seq![bind_block(self.gravity, m.block, m.buffer)],
            None => Seq::empty(),
        }
    }

    /// The gravity stage: positions are bound for reading, accelerations for
    /// writing, masses for reading where there are any; the grid is one
    /// workgroup per particle.
    pub open spec fn gravity_stage(self) -> StageView {
        StageView {
            program: self.gravity,
            bindings: seq![
                bind_block(self.gravity, self.gravity_position, self.position),
                bind_block(self.gravity, self.gravity_acceleration, self.acceleration),
            ] + self.mass_commands(),
            grid: spec_particle_grid(self.particles),
        }
    }

    /// The integration stage: positions, velocities and accelerations are
    /// bound; the grid is one workgroup per particle.
    pub open spec fn integrate_stage(self) -> StageView {
        StageView {
            program: self.integrate,
            bindings: seq![
                bind_block(self.integrate, self.integrate_position, self.position),
                bind_block(self.integrate, self.integrate_velocity, self.velocity),
                bind_block(self.integrate, self.integrate_acceleration, self.acceleration),
            ],
            grid: spec_particle_grid(self.particles),
        }
    }

    /// The commands of the gravity stage: its bindings, one dispatch over
    /// all particles, and a barrier.
    pub open spec fn gravity_commands(self) -> Seq<Command> {
        stage_commands(self.gravity_stage())
    }

    /// The commands of the integration stage: its bindings, one dispatch
    /// over all particles, and a barrier.
    pub open spec fn integrate_commands(self) -> Seq<Command> {
        stage_commands(self.integrate_stage())
    }

    /// The physics of one step: gravity, then integration.
    pub open spec fn physics_commands(self) -> Seq<Command> {
        self.gravity_commands() + self.integrate_commands()
    }

    /// The release of everything the physics stages own, each exactly once.
    pub open spec fn release_commands(self) -> Seq<Command> {
        seq![
            Command::DeleteBuffer { buffer: self.position },
            Command::DeleteBuffer { buffer: self.velocity },
            Command::DeleteBuffer { buffer: self.acceleration },
        ] + (match self.mass {
            Some(m) => seq![Command::DeleteBuffer { buffer: m.buffer }],
            None => Seq::empty(),
        }) + seq![
            Command::DeleteProgram { program: self.gravity },
            Command::DeleteProgram { program: self.integrate },
        ]
    }
}

/// Everything the render preparation depends on: the programs that scatter
/// the particles into the density field and let the field decay, and the
/// field's texture.
#[derive(Clone, Copy, Debug, PartialEq, Eq, Structural)]
pub struct RenderLayout {
    /// Handle of the scatter program.
    pub scatter: u32,
    /// Index of the position block in the scatter program.
    pub scatter_position: u32,
    /// Handle of the decay program.
    pub decay: u32,
    /// Handle of the field texture.
    pub field: u32,
    /// Format of the field texture.
    pub format: PixelFormat,
    /// Width of the field texture.
    pub width: u32,
    /// Height of the field texture.
    pub height: u32,
}

/// The image unit through which both render kernels reach the field.
pub const FIELD_UNIT: u32 = 0;

impl RenderLayout {
    pub open spec fn bind_field(self) -> Command {
        Command::BindImageUnit {
            unit: FIELD_UNIT,
            texture: self.field,
            access: Access::ReadWrite,
            format: self.format,
        }
    }

    /// The scatter stage: the positions and the field are bound; the grid
    /// is one workgroup per particle.
    pub open spec fn scatter_stage(self, position: u32, particles: u32) -> StageView {
        StageView {
            program: self.scatter,
            bindings: seq![
                bind_block(self.scatter, self.scatter_position, position),
                self.bind_field(),
            ],
            grid: spec_particle_grid(particles),
        }
    }

    /// The decay stage: the field is bound; the grid is one workgroup per texel.
    pub open spec fn decay_stage(self) -> StageView {
        StageView {
            program: self.decay,
            bindings: seq![self.bind_field()],
            grid: spec_image_grid(self.width, self.height),
        }
    }

    /// The render preparation of one step: the particles' positions are
    /// scattered into the field, then the field decays. Each dispatch ends
    /// in a barrier.
    pub open spec fn render_commands(self, position: u32, particles: u32) -> Seq<Command> {
        stage_commands(self.scatter_stage(position, particles)) + stage_commands(
            self.decay_stage(),
        )
    }

    /// The release of what the render preparation owns, each exactly once.
    pub open spec fn release_commands(self) -> Seq<Command> {
        seq![
            Command::DeleteTexture { texture: self.field },
            Command::DeleteProgram { program: self.scatter },
            Command::DeleteProgram { program: self.decay },
        ]
    }
}

/// The resources of the optional render preparation.
#[derive(Debug)]
pub struct RenderPrep {
    /// Projects the positions into the field.
    pub scatter: Program,
    /// Attenuates the field.
    pub decay: Program,
    /// The density field.
    pub field: Texture,
}

impl RenderPrep {
    pub open spec fn layout(&self) -> RenderLayout {
        RenderLayout {
            scatter: self.scatter.spec_handle(),
            scatter_position: self.scatter.spec_blocks()[position_name()],
            decay: self.decay.spec_handle(),
            field: self.field.spec_handle(),
            format: self.field.spec_format(),
            width: self.field.spec_size().0,
            height: self.field.spec_size().1,
        }
    }
}

pub open spec fn render_layout(render: Option<RenderPrep>) -> Option<RenderLayout> {
    match render {
        Some(r) => Some(r.layout()),
        None => None,
    }
}

/// The buffers of per-particle state that a pipeline is built on.
#[derive(Debug)]
pub struct ParticleBuffers {
    pub position: Buffer,
    pub velocity: Buffer,
    pub acceleration: Buffer,
    /// One mass per particle. Without it every particle has unit mass.
    pub mass: Option<Buffer>,
}

/// The reason for which these programs cannot run the stages of a
/// pipeline, if there is one: first their kinds are checked, then their
/// blocks, then their handles. The gravity program needs a mass block only
/// where there is a mass buffer.
pub open spec fn programs_error(
    gravity: &Program,
    integrate: &Program,
    with_mass: bool,
    render: &Option<RenderPrep>,
) -> Option<PipelineError> {
    if gravity.spec_kind() != ProgramKind::Compute || integrate.spec_kind() != ProgramKind::Compute
        || (render matches Some(r) && (r.scatter.spec_kind() != ProgramKind::Compute
        || r.decay.spec_kind() != ProgramKind::Compute)) {
        Some(PipelineError::NotCompute)
    } else if gravity.spec_block_index(position_name()) is None || gravity.spec_block_index(
        acceleration_name(),
    ) is None || (with_mass && gravity.spec_block_index(mass_name()) is None)
        || integrate.spec_block_index(position_name()) is None || integrate.spec_block_index(
        velocity_name(),
    ) is None || integrate.spec_block_index(acceleration_name()) is None || (render matches Some(r)
        && r.scatter.spec_block_index(position_name()) is None) {
        Some(PipelineError::MissingBlock)
    } else if gravity.spec_handle() == integrate.spec_handle() || (render matches Some(r)
        && same_program(
        gravity.spec_handle(),
        integrate.spec_handle(),
        r.scatter.spec_handle(),
        r.decay.spec_handle(),
    )) {
        Some(PipelineError::Aliased)
    } else {
        None
    }
}

/// One of the render programs is the other one, or one of the physics programs.
pub open spec fn same_program(gravity: u32, integrate: u32, scatter: u32, decay: u32) -> bool {
    scatter == decay || scatter == gravity || scatter == integrate || decay == gravity || decay
        == integrate
}

/// The programs of a pipeline are different device programs.
pub open spec fn programs_differ(l: Layout, r: Option<RenderLayout>) -> bool {
    &&& l.gravity != l.integrate
    &&& (r matches Some(r) ==> !same_program(l.gravity, l.integrate, r.scatter, r.decay))
}

/// Two of the handles are the same.
pub open spec fn aliased(position: u32, velocity: u32, acceleration: u32, mass: Option<u32>) -> bool {
    position == velocity || position == acceleration || velocity == acceleration || (
    mass matches Some(m) && (m == position || m == velocity || m == acceleration))
}

/// The handle of the mass buffer, where there is one.
pub open spec fn mass_handle(mass: &Option<Buffer>) -> Option<u32> {
    match mass {
        Some(m) => Some(m.spec_handle()),
        None => None,
    }
}

/// The reason for which a mass buffer cannot serve `particles` particles
/// beside buffers with these handles, if there is one: first its store is
/// checked, then its length, then the handles.
pub open spec fn buffers_error(
    position: u32,
    velocity: u32,
    acceleration: u32,
    particles: u32,
    mass: &Option<Buffer>,
) -> Option<PipelineError> {
    if mass matches Some(m) && m.spec_element() is None {
        Some(PipelineError::NoStore)
    } else if mass matches Some(m) && m.spec_len() != particles {
        Some(PipelineError::LengthMismatch)
    } else if aliased(position, velocity, acceleration, mass_handle(mass)) {
        Some(PipelineError::Aliased)
    } else {
        None
    }
}

/// The reason for which a pipeline cannot be built from these resources, if
/// there is one. The checks come in this order: kinds of the programs,
/// their blocks, their handles, the buffers' stores, their lengths, their
/// handles.
pub open spec fn new_error(
    gravity: &Program,
    integrate: &Program,
    buffers: &ParticleBuffers,
    render: &Option<RenderPrep>,
) -> Option<PipelineError> {
    if programs_error(gravity, integrate, buffers.mass is Some, render) is Some {
        programs_error(gravity, integrate, buffers.mass is Some, render)
    } else if buffers.position.spec_element() is None || buffers.velocity.spec_element() is None
        || buffers.acceleration.spec_element() is None {
        Some(PipelineError::NoStore)
    } else if buffers.position.spec_len() != buffers.velocity.spec_len()
        || buffers.position.spec_len() != buffers.acceleration.spec_len() {
        Some(PipelineError::LengthMismatch)
    } else {
        buffers_error(
            buffers.position.spec_handle(),
            buffers.velocity.spec_handle(),
            buffers.acceleration.spec_handle(),
            buffers.position.spec_len(),
            &buffers.mass,
        )
    }
}

/// The reason for which a pipeline cannot be built on initial positions of
/// `np` bytes and initial velocities of `nv` bytes, if there is one. The
/// checks come in this order: whole elements, equal lengths, particle
/// count, kinds of the programs, their blocks, their handles, the mass
/// buffer's store and length, the buffers' handles.
pub open spec fn with_particles_error(
    gravity: &Program,
    integrate: &Program,
    handles: (u32, u32, u32),
    element: ElementType,
    np: nat,
    nv: nat,
    mass: &Option<Buffer>,
    render: &Option<RenderPrep>,
) -> Option<PipelineError> {
    if np % element.spec_stride() != 0 || nv % element.spec_stride() != 0 {
        Some(PipelineError::PartialElement)
    } else if np != nv {
        Some(PipelineError::LengthMismatch)
    } else if np / element.spec_stride() > u32::MAX {
        Some(PipelineError::TooManyParticles)
    } else if programs_error(gravity, integrate, mass is Some, render) is Some {
        programs_error(gravity, integrate, mass is Some, render)
    } else {
        buffers_error(
            handles.0,
            handles.1,
            handles.2,
            (np / element.spec_stride()) as u32,
            mass,
        )
    }
}

/// The layout of a pipeline that runs these programs on the buffers with
/// these handles, `particles` elements long each.
pub open spec fn layout_for(
    gravity: &Program,
    integrate: &Program,
    position: u32,
    velocity: u32,
    acceleration: u32,
    particles: u32,
    mass: Option<u32>,
) -> Layout {
    Layout {
        gravity: gravity.spec_handle(),
        integrate: integrate.spec_handle(),
        position,
        velocity,
        acceleration,
        gravity_position: gravity.spec_blocks()[position_name()],
        gravity_acceleration: gravity.spec_blocks()[acceleration_name()],
        integrate_position: integrate.spec_blocks()[position_name()],
        integrate_velocity: integrate.spec_blocks()[velocity_name()],
        integrate_acceleration: integrate.spec_blocks()[acceleration_name()],
        particles,
        mass: match mass {
            Some(buffer) => Some(MassBinding { block: gravity.spec_blocks()[mass_name()], buffer }),
            None => None,
        },
    }
}

/// The layout that a pipeline built from these resources works on.
pub open spec fn layout_of(gravity: &Program, integrate: &Program, buffers: &ParticleBuffers)
    -> Layout {
    layout_for(
        gravity,
        integrate,
        buffers.position.spec_handle(),
        buffers.velocity.spec_handle(),
        buffers.acceleration.spec_handle(),
        buffers.position.spec_len(),
        mass_handle(&buffers.mass),
    )
}

/// The uploads that fill the three particle buffers of `n` bytes each: the
/// positions, the velocities, and `n` zero bytes for the accelerations.
pub open spec fn initial_uploads(handles: (u32, u32, u32), n: usize, flags: u32) -> Seq<Command> {
    seq![
        Command::BufferStorage { buffer: handles.0, size: n, flags },
        Command::BufferStorage { buffer: handles.1, size: n, flags },
        Command::BufferStorage { buffer: handles.2, size: n, flags },
    ]
}

/// The four block names are four different names.
pub proof fn lemma_names_differ()
    ensures
        position_name() != velocity_name(),
        position_name() != acceleration_name(),
        velocity_name() != acceleration_name(),
        mass_name() != position_name(),
        mass_name() != velocity_name(),
        mass_name() != acceleration_name(),
{
    reveal_strlit("position");
    reveal_strlit("velocity");
    reveal_strlit("acceleration");
    reveal_strlit("mass");
    assert(position_name()[0] == 'p');
    assert(velocity_name()[0] == 'v');
    assert(acceleration_name()[0] == 'a');
    assert(mass_name()[0] == 'm');
}

/// The binding of a stored buffer to a block that the program is known to
/// have, through the binding point of the same number.
fn bound(program: &Program, buffer: &Buffer, block: u32) -> (c: Command)
    requires
        program.spec_blocks().contains_value(block),
        buffer.spec_element() is Some,
    ensures
        c == bind_block(program.spec_handle(), block, buffer.spec_handle()),
{
    program.bind_storage_buffer(buffer, block, block).unwrap()
}

/// `program` has a block called `name`, at index `block`.
pub open spec fn resolves(program: &Program, name: Seq<char>, block: u32) -> bool {
    program.spec_block_index(name) == Some(block)
}

/// A particle simulation on the device. It owns its buffers, programs and
/// field texture; the particle count never changes.
#[derive(Debug)]
pub struct Pipeline {
    layout: Layout,
    render_layout: Option<RenderLayout>,
    phase: Phase,
    buffers: ParticleBuffers,
    gravity: Program,
    integrate: Program,
    render: Option<RenderPrep>,
}

impl Pipeline {
    #[verifier::type_invariant]
    spec fn wf(self) -> bool {
        &&& self.layout.valid()
        &&& programs_differ(self.layout, self.render_layout)
        &&& self.buffers.position.spec_handle() == self.layout.position
        &&& self.buffers.velocity.spec_handle() == self.layout.velocity
        &&& self.buffers.acceleration.spec_handle() == self.layout.acceleration
        &&& self.buffers.position.spec_len() == self.layout.particles
        &&& self.buffers.velocity.spec_len() == self.layout.particles
        &&& self.buffers.acceleration.spec_len() == self.layout.particles
        &&& self.buffers.position.spec_element() is Some
        &&& self.buffers.velocity.spec_element() is Some
        &&& self.buffers.acceleration.spec_element() is Some
        &&& (self.layout.mass is Some <==> self.buffers.mass is Some)
        &&& (self.buffers.mass matches Some(m) ==> {
            &&& m.spec_handle() == self.layout.mass->0.buffer
            &&& m.spec_len() == self.layout.particles
            &&& m.spec_element() is Some
        })
        &&& self.gravity.spec_handle() == self.layout.gravity
        &&& self.integrate.spec_handle() == self.layout.integrate
        &&& resolves(&self.gravity, position_name(), self.layout.gravity_position)
        &&& resolves(&self.gravity, acceleration_name(), self.layout.gravity_acceleration)
        &&& resolves(&self.integrate, position_name(), self.layout.integrate_position)
        &&& resolves(&self.integrate, velocity_name(), self.layout.integrate_velocity)
        &&& resolves(&self.integrate, acceleration_name(), self.layout.integrate_acceleration)
        &&& (self.layout.mass matches Some(m) ==> resolves(&self.gravity, mass_name(), m.block))
        &&& self.gravity.spec_kind() == ProgramKind::Compute
        &&& self.integrate.spec_kind() == ProgramKind::Compute
        &&& self.render_layout is Some <==> self.render is Some
        &&& (self.render matches Some(r) ==> {
            &&& self.render_layout->0.field == r.field.spec_handle()
            &&& self.render_layout->0.format == r.field.spec_format()
            &&& (self.render_layout->0.width, self.render_layout->0.height) == r.field.spec_size()
            &&& self.render_layout->0.scatter == r.scatter.spec_handle()
            &&& self.render_layout->0.decay == r.decay.spec_handle()
            &&& resolves(&r.scatter, position_name(), self.render_layout->0.scatter_position)
        })
    }

    pub closed spec fn spec_layout(&self) -> Layout {
        self.layout
    }

    pub closed spec fn spec_render(&self) -> Option<RenderLayout> {
        self.render_layout
    }

    pub closed spec fn spec_phase(&self) -> Phase {
        self.phase
    }

    /// What every pipeline is built with: three different buffers, different
    /// programs, and within a program no two blocks at one index.
    pub open spec fn valid(&self) -> bool {
        &&& self.spec_layout().valid()
        &&& programs_differ(self.spec_layout(), self.spec_render())
    }

    /// The render preparation of one step; empty where the pipeline has none.
    pub open spec fn render_commands(&self) -> Seq<Command> {
        match self.spec_render() {
            Some(r) => r.render_commands(self.spec_layout().position, self.spec_layout().particles),
            None => Seq::empty(),
        }
    }

    /// The stages of one step, in the order in which they run: gravity,
    /// integration, and where the pipeline prepares rendering, scatter and
    /// decay.
    pub open spec fn spec_stages(&self) -> Seq<StageView> {
        let l = self.spec_layout();
        seq![l.gravity_stage(), l.integrate_stage()] + (match self.spec_render() {
            Some(r) => seq![r.scatter_stage(l.position, l.particles), r.decay_stage()],
            None => Seq::empty(),
        })
    }

    /// What `steps(n)` hands out: the physics of `n` steps, then one render
    /// preparation.
    pub open spec fn steps_commands(&self, n: nat) -> Seq<Command> {
        repeated(self.spec_layout().physics_commands(), n) + self.render_commands()
    }

    /// What `step` hands out: gravity, integration, render preparation.
    pub open spec fn step_commands(&self) -> Seq<Command> {
        self.spec_layout().physics_commands() + self.render_commands()
    }

    /// What `terminate` hands out.
    pub open spec fn release_commands(&self) -> Seq<Command> {
        self.spec_layout().release_commands() + match self.spec_render() {
            Some(r) => r.release_commands(),
            None => Seq::empty(),
        }
    }

    /// The reason for which a step cannot start, or the pipeline not be
    /// terminated, in `phase`, if there is one.
    pub open spec fn start_error(phase: Phase) -> Option<PipelineError> {
        match phase {
            Phase::Ready => None,
            Phase::Stepping => Some(PipelineError::Busy),
            Phase::Terminated => Some(PipelineError::Terminated),
        }
    }

    /// `self` differs from `before` in its phase at most.
    pub open spec fn same_setup(&self, before: &Pipeline) -> bool {
        &&& self.spec_layout() == before.spec_layout()
        &&& self.spec_render() == before.spec_render()
    }

    /// Builds a pipeline from linked programs and stored buffers, and
    /// resolves the programs' blocks, once. The new pipeline is `Ready`.
    pub fn new(
        gravity: Program,
        integrate: Program,
        buffers: ParticleBuffers,
        render: Option<RenderPrep>,
    ) -> (r: Result<Pipeline, PipelineError>)
        ensures
            match r {
                Ok(p) => {
                    &&& new_error(&gravity, &integrate, &buffers, &render) is None
                    &&& p.spec_layout() == layout_of(&gravity, &integrate, &buffers)
                    &&& p.spec_render() == render_layout(render)
                    &&& p.spec_phase() == Phase::Ready
                    &&& p.valid()
                },
                Err(e) => new_error(&gravity, &integrate, &buffers, &render) == Some(e),
            },
    {
        let compute = match (gravity.kind(), integrate.kind()) {
            (ProgramKind::Compute, ProgramKind::Compute) => true,
            _ => false,
        };
        let render_compute = match &render {
            Some(r) => match (r.scatter.kind(), r.decay.kind()) {
                (ProgramKind::Compute, ProgramKind::Compute) => true,
                _ => false,
            },
            None => true,
        };
        if !compute || !render_compute {
            return Err(PipelineError::NotCompute);
        }
        let pos = "position".to_owned();
        let vel = "velocity".to_owned();
        let acc = "acceleration".to_owned();
        let gp = gravity.storage_block_index(&pos);
        let ga = gravity.storage_block_index(&acc);
        let gm = match &buffers.mass {
            Some(_) => gravity.storage_block_index(&"mass".to_owned()),
            None => Some(0),
        };
        let ip = integrate.storage_block_index(&pos);
        let iv = integrate.storage_block_index(&vel);
        let ia = integrate.storage_block_index(&acc);
        let sp = match &render {
            Some(r) => r.scatter.storage_block_index(&pos),
            None => Some(0),
        };
        if gp.is_none() || ga.is_none() || gm.is_none() || ip.is_none() || iv.is_none()
            || ia.is_none() || sp.is_none() {
            return Err(PipelineError::MissingBlock);
        }
        let render_aliased = match &render {
            Some(r) => {
                let (s, d) = (r.scatter.handle(), r.decay.handle());
                s == d || s == gravity.handle() || s == integrate.handle() || d == gravity.handle()
                    || d == integrate.handle()
            },
            None => false,
        };
        if gravity.handle() == integrate.handle() || render_aliased {
            return Err(PipelineError::Aliased);
        }
        let (position, velocity, acceleration) = (
            buffers.position.handle(),
            buffers.velocity.handle(),
            buffers.acceleration.handle(),
        );
        let particles = buffers.position.len();
        if buffers.position.element().is_none() || buffers.velocity.element().is_none()
            || buffers.acceleration.element().is_none() {
            return Err(PipelineError::NoStore);
        }
        if particles != buffers.velocity.len() || particles != buffers.acceleration.len() {
            return Err(PipelineError::LengthMismatch);
        }
        let mass = match &buffers.mass {
            Some(m) => {
                if m.element().is_none() {
                    return Err(PipelineError::NoStore);
                }
                if m.len() != particles {
                    return Err(PipelineError::LengthMismatch);
                }
                Some(MassBinding { block: gm.unwrap(), buffer: m.handle() })
            },
            None => None,
        };
        let mass_aliased = match mass {
            Some(m) => m.buffer == position || m.buffer == velocity || m.buffer == acceleration,
            None => false,
        };
        if position == velocity || position == acceleration || velocity == acceleration
            || mass_aliased {
            return Err(PipelineError::Aliased);
        }
        let layout = Layout {
            gravity: gravity.handle(),
            integrate: integrate.handle(),
            position,
            velocity,
            acceleration,
            gravity_position: gp.unwrap(),
            gravity_acceleration: ga.unwrap(),
            integrate_position: ip.unwrap(),
            integrate_velocity: iv.unwrap(),
            integrate_acceleration: ia.unwrap(),
            particles,
            mass,
        };
        proof {
            lemma_names_differ();
        }
        let render_layout = match &render {
            Some(r) => {
                let size = r.field.size();
                Some(
                    RenderLayout {
                        scatter: r.scatter.handle(),
                        scatter_position: sp.unwrap(),
                        decay: r.decay.handle(),
                        field: r.field.handle(),
                        format: r.field.format(),
                        width: size.0,
                        height: size.1,
                    },
                )
            },
            None => None,
        };
        Ok(Pipeline { layout, render_layout, phase: Phase::Ready, buffers, gravity, integrate, render })
    }

    /// Builds a pipeline on fresh buffers: `handles` are the handles that
    /// the device gave for the position, velocity and acceleration buffer,
    /// `positions` and `velocities` hold the initial state of the particles
    /// as tightly packed elements of type `element`, and `mass` is the mass
    /// buffer, if the particles are to have other masses than 1. The result
    /// is the pipeline, `Ready`, and the three uploads that fill its
    /// buffers: the first takes `positions`, the second `velocities`, the
    /// third as many zero bytes.
    pub fn with_particles(
        gravity: Program,
        integrate: Program,
        handles: (u32, u32, u32),
        element: ElementType,
        positions: &[u8],
        velocities: &[u8],
        flags: u32,
        mass: Option<Buffer>,
        render: Option<RenderPrep>,
    ) -> (r: Result<(Pipeline, Vec<Command>), PipelineError>)
        ensures
            match r {
                Ok((p, cs)) => {
                    &&& with_particles_error(
                        &gravity,
                        &integrate,
                        handles,
                        element,
                        positions@.len(),
                        velocities@.len(),
                        &mass,
                        &render,
                    ) is None
                    &&& p.spec_layout() == layout_for(
                        &gravity,
                        &integrate,
                        handles.0,
                        handles.1,
                        handles.2,
                        (positions@.len() / element.spec_stride()) as u32,
                        mass_handle(&mass),
                    )
                    &&& p.spec_render() == render_layout(render)
                    &&& p.spec_phase() == Phase::Ready
                    &&& p.valid()
                    &&& cs@ == initial_uploads(handles, positions@.len() as usize, flags)
                },
                Err(e) => with_particles_error(
                    &gravity,
                    &integrate,
                    handles,
                    element,
                    positions@.len(),
                    velocities@.len(),
                    &mass,
                    &render,
                ) == Some(e),
            },
    {
        let stride = element.stride();
        if positions.len() % stride != 0 || velocities.len() % stride != 0 {
            return Err(PipelineError::PartialElement);
        }
        if positions.len() != velocities.len() {
            return Err(PipelineError::LengthMismatch);
        }
        let (position, c0) = match Buffer::new(handles.0, element, positions, flags) {
            Ok(made) => made,
            Err(_) => {
                return Err(PipelineError::TooManyParticles);
            },
        };
        let (velocity, c1) = match Buffer::new(handles.1, element, velocities, flags) {
            Ok(made) => made,
            Err(_) => {
                return Err(PipelineError::TooManyParticles);
            },
        };
        // The acceleration store has the size of the other two; what its
        // upload carries is zeros, not the velocities measured here.
        let (acceleration, c2) = match Buffer::new(handles.2, element, velocities, flags) {
            Ok(made) => made,
            Err(_) => {
                return Err(PipelineError::TooManyParticles);
            },
        };
        let buffers = ParticleBuffers { position, velocity, acceleration, mass };
        let p = match Pipeline::new(gravity, integrate, buffers, render) {
            Ok(p) => p,
            Err(e) => {
                return Err(e);
            },
        };
        let mut cs: Vec<Command> = Vec::new();
        cs.push(c0);
        cs.push(c1);
        cs.push(c2);
        proof {
            assert(cs@ =~= initial_uploads(handles, positions@.len() as usize, flags));
        }
        Ok((p, cs))
    }

    #[verifier::when_used_as_spec(spec_layout)]
    pub fn layout(&self) -> (l: Layout)
        ensures
            l == self.spec_layout(),
            self.valid(),
    {
        proof {
            use_type_invariant(self);
        }
        self.layout
    }

    #[verifier::when_used_as_spec(spec_render)]
    pub fn render(&self) -> (r: Option<RenderLayout>)
        ensures
            r == self.spec_render(),
    {
        self.render_layout
    }

    #[verifier::when_used_as_spec(spec_phase)]
    pub fn phase(&self) -> (p: Phase)
        ensures
            p == self.spec_phase(),
    {
        self.phase
    }

    /// Number of particles.
    pub fn particles(&self) -> (n: u32)
        ensures
            n == self.spec_layout().particles,
    {
        self.layout.particles
    }

    /// The position buffer.
    pub fn position(&self) -> (b: &Buffer)
        ensures
            b.spec_handle() == self.spec_layout().position,
            b.spec_len() == self.spec_layout().particles,
            b.spec_element() is Some,
    {
        proof {
            use_type_invariant(self);
        }
        &self.buffers.position
    }

    /// The velocity buffer.
    pub fn velocity(&self) -> (b: &Buffer)
        ensures
            b.spec_handle() == self.spec_layout().velocity,
            b.spec_len() == self.spec_layout().particles,
            b.spec_element() is Some,
    {
        proof {
            use_type_invariant(self);
        }
        &self.buffers.velocity
    }

    /// The acceleration buffer.
    pub fn acceleration(&self) -> (b: &Buffer)
        ensures
            b.spec_handle() == self.spec_layout().acceleration,
            b.spec_len() == self.spec_layout().particles,
            b.spec_element() is Some,
    {
        proof {
            use_type_invariant(self);
        }
        &self.buffers.acceleration
    }

    /// The mass buffer, where the pipeline has one.
    pub fn mass(&self) -> (b: Option<&Buffer>)
        ensures
            b is Some <==> self.spec_layout().mass is Some,
            b matches Some(m) ==> {
                &&& m.spec_handle() == self.spec_layout().mass->0.buffer
                &&& m.spec_len() == self.spec_layout().particles
                &&& m.spec_element() is Some
            },
    {
        proof {
            use_type_invariant(self);
        }
        self.buffers.mass.as_ref()
    }

    /// The gravity program.
    pub fn gravity_program(&self) -> (p: &Program)
        ensures
            p.spec_handle() == self.spec_layout().gravity,
            p.spec_kind() == ProgramKind::Compute,
    {
        proof {
            use_type_invariant(self);
        }
        &self.gravity
    }

    /// The integration program.
    pub fn integrate_program(&self) -> (p: &Program)
        ensures
            p.spec_handle() == self.spec_layout().integrate,
            p.spec_kind() == ProgramKind::Compute,
    {
        proof {
            use_type_invariant(self);
        }
        &self.integrate
    }

    /// The programs and the field texture of the render preparation, where
    /// the pipeline has one.
    pub fn render_prep(&self) -> (r: Option<&RenderPrep>)
        ensures
            r is Some <==> self.spec_render() is Some,
            r matches Some(prep) ==> {
                &&& prep.field.spec_handle() == self.spec_render()->0.field
                &&& prep.field.spec_format() == self.spec_render()->0.format
                &&& prep.field.spec_size() == (
                    self.spec_render()->0.width,
                    self.spec_render()->0.height,
                )
                &&& prep.scatter.spec_handle() == self.spec_render()->0.scatter
                &&& prep.decay.spec_handle() == self.spec_render()->0.decay
            },
    {
        proof {
            use_type_invariant(self);
        }
        self.render.as_ref()
    }

    /// The stages of one step as a list, in the order in which they run.
    pub fn stages(&self) -> (r: Vec<Stage>)
        ensures
            stage_views(r@) == self.spec_stages(),
    {
        proof {
            use_type_invariant(self);
        }
        let l = self.layout;
        let b = &self.buffers;
        let grid = particle_grid(l.particles);
        let mut gravity: Vec<Command> = Vec::new();
        gravity.push(bound(&self.gravity, &b.position, l.gravity_position));
        gravity.push(bound(&self.gravity, &b.acceleration, l.gravity_acceleration));
        match (&b.mass, l.mass) {
            (Some(mass), Some(m)) => {
                gravity.push(bound(&self.gravity, mass, m.block));
            },
            _ => {},
        }
        let mut integrate: Vec<Command> = Vec::new();
        integrate.push(bound(&self.integrate, &b.position, l.integrate_position));
        integrate.push(bound(&self.integrate, &b.velocity, l.integrate_velocity));
        integrate.push(bound(&self.integrate, &b.acceleration, l.integrate_acceleration));
        let mut out: Vec<Stage> = Vec::new();
        out.push(Stage { program: l.gravity, bindings: gravity, grid });
        out.push(Stage { program: l.integrate, bindings: integrate, grid });
        proof {
            assert(out@[0]@.bindings =~= l.gravity_stage().bindings);
            assert(out@[1]@.bindings =~= l.integrate_stage().bindings);
        }
        match (&self.render, self.render_layout) {
            (Some(prep), Some(r)) => {
                let field = prep.field.bind_as_image(FIELD_UNIT, Access::ReadWrite);
                let mut scatter: Vec<Command> = Vec::new();
                scatter.push(bound(&prep.scatter, &b.position, r.scatter_position));
                scatter.push(field);
                let mut decay: Vec<Command> = Vec::new();
                decay.push(field);
                out.push(Stage { program: r.scatter, bindings: scatter, grid });
                out.push(
                    Stage { program: r.decay, bindings: decay, grid: image_grid(r.width, r.height) },
                );
                proof {
                    assert(out@[2]@.bindings =~= r.scatter_stage(l.position, l.particles).bindings);
                    assert(out@[3]@.bindings =~= r.decay_stage().bindings);
                }
            },
            _ => {},
        }
        proof {
            assert(stage_views(out@) =~= self.spec_stages());
        }
        out
    }

    fn set_phase(&mut self, phase: Phase)
        ensures
            final(self).spec_phase() == phase,
            final(self).same_setup(old(self)),
    {
        proof {
            use_type_invariant(&*self);
        }
        self.phase = phase;
    }

    /// Starts `n` steps in one go: hands out the physics of `n` steps,
    /// gravity before integration each time, followed by one render
    /// preparation, and leaves the pipeline `Stepping`. A pipeline that is
    /// not `Ready` is left as it is.
    pub fn steps(&mut self, n: u32) -> (r: Result<Vec<Command>, PipelineError>)
        ensures
            final(self).same_setup(old(self)),
            match r {
                Ok(cs) => {
                    &&& old(self).spec_phase() == Phase::Ready
                    &&& final(self).spec_phase() == Phase::Stepping
                    &&& cs@ == old(self).steps_commands(n as nat)
                },
                Err(e) => {
                    &&& Self::start_error(old(self).spec_phase()) == Some(e)
                    &&& final(self).spec_phase() == old(self).spec_phase()
                },
            },
    {
        match self.phase {
            Phase::Ready => {},
            Phase::Stepping => {
                return Err(PipelineError::Busy);
            },
            Phase::Terminated => {
                return Err(PipelineError::Terminated);
            },
        }
        let stages = self.stages();
        let ghost layout = self.spec_layout();
        let ghost render = self.spec_render();
        proof {
            let views = stage_views(stages@);
            assert(views.len() == stages@.len());
            assert(views[0] == layout.gravity_stage());
            assert(views[1] == layout.integrate_stage());
        }
        let mut out: Vec<Command> = Vec::new();
        let mut i: u32 = 0;
        while i < n
            invariant
                i <= n,
                stages@.len() >= 2,
                stages@[0]@ == layout.gravity_stage(),
                stages@[1]@ == layout.integrate_stage(),
                out@ == repeated(layout.physics_commands(), i as nat),
            decreases n - i,
        {
            let ghost before = out@;
            stages[0].emit(&mut out);
            stages[1].emit(&mut out);
            i = i + 1;
            proof {
                assert(out@ =~= before + layout.physics_commands());
            }
        }
        if stages.len() > 2 {
            proof {
                let views = stage_views(stages@);
                assert(views[2] == render->0.scatter_stage(layout.position, layout.particles));
                assert(views[3] == render->0.decay_stage());
            }
            let ghost before = out@;
            stages[2].emit(&mut out);
            stages[3].emit(&mut out);
            proof {
                assert(out@ =~= before + self.render_commands());
            }
        } else {
            proof {
                assert(render is None);
                assert(out@ =~= out@ + Seq::<Command>::empty());
            }
        }
        self.set_phase(Phase::Stepping);
        Ok(out)
    }

    /// Starts one step: hands out its commands, gravity, then integration,
    /// then the render preparation if the pipeline has one, and leaves the
    /// pipeline `Stepping`. A pipeline that is not `Ready` is left as it is.
    pub fn step(&mut self) -> (r: Result<Vec<Command>, PipelineError>)
        ensures
            final(self).same_setup(old(self)),
            match r {
                Ok(cs) => {
                    &&& old(self).spec_phase() == Phase::Ready
                    &&& final(self).spec_phase() == Phase::Stepping
                    &&& cs@ == old(self).step_commands()
                },
                Err(e) => {
                    &&& Self::start_error(old(self).spec_phase()) == Some(e)
                    &&& final(self).spec_phase() == old(self).spec_phase()
                },
            },
    {
        proof {
            let physics = self.spec_layout().physics_commands();
            assert(repeated(physics, 1) =~= physics) by {
                assert(repeated(physics, 0) =~= Seq::<Command>::empty());
                assert(repeated(physics, 1) == repeated(physics, 0) + physics);
            }
        }
        self.steps(1)
    }

    /// Records that the device has passed the last barrier of the step in
    /// flight: the pipeline is `Ready` again.
    pub fn complete(&mut self) -> (r: Result<(), PipelineError>)
        ensures
            final(self).same_setup(old(self)),
            match r {
                Ok(()) => {
                    &&& old(self).spec_phase() == Phase::Stepping
                    &&& final(self).spec_phase() == Phase::Ready
                },
                Err(e) => {
                    &&& old(self).spec_phase() != Phase::Stepping
                    &&& e == (if old(self).spec_phase() == Phase::Terminated {
                        PipelineError::Terminated
                    } else {
                        PipelineError::NotStepping
                    })
                    &&& final(self).spec_phase() == old(self).spec_phase()
                },
            },
    {
        match self.phase {
            Phase::Stepping => {
                self.set_phase(Phase::Ready);
                Ok(())
            },
            Phase::Ready => Err(PipelineError::NotStepping),
            Phase::Terminated => Err(PipelineError::Terminated),
        }
    }

    /// Ends the pipeline: hands out the release of every buffer, program
    /// and texture it owns, each exactly once, and leaves the pipeline
    /// `Terminated`. A pipeline that is not `Ready` is left as it is, so
    /// nothing is released twice or while a step is in flight.
    pub fn terminate(&mut self) -> (r: Result<Vec<Command>, PipelineError>)
        ensures
            final(self).same_setup(old(self)),
            match r {
                Ok(cs) => {
                    &&& old(self).spec_phase() == Phase::Ready
                    &&& final(self).spec_phase() == Phase::Terminated
                    &&& cs@ == old(self).release_commands()
                },
                Err(e) => {
                    &&& Self::start_error(old(self).spec_phase()) == Some(e)
                    &&& final(self).spec_phase() == old(self).spec_phase()
                },
            },
    {
        match self.phase {
            Phase::Ready => {},
            Phase::Stepping => {
                return Err(PipelineError::Busy);
            },
            Phase::Terminated => {
                return Err(PipelineError::Terminated);
            },
        }
        let l = self.layout;
        let mut out: Vec<Command> = Vec::new();
        out.push(Command::DeleteBuffer { buffer: l.position });
        out.push(Command::DeleteBuffer { buffer: l.velocity });
        out.push(Command::DeleteBuffer { buffer: l.acceleration });
        match l.mass {
            Some(m) => {
                out.push(Command::DeleteBuffer { buffer: m.buffer });
            },
            None => {},
        }
        out.push(Command::DeleteProgram { program: l.gravity });
        out.push(Command::DeleteProgram { program: l.integrate });
        match self.render_layout {
            Some(r) => {
                out.push(Command::DeleteTexture { texture: r.field });
                out.push(Command::DeleteProgram { program: r.scatter });
                out.push(Command::DeleteProgram { program: r.decay });
            },
            None => {},
        }
        proof {
            assert(out@ =~= self.release_commands());
        }
        self.set_phase(Phase::Terminated);
        Ok(out)
    }
}

} // verus!
