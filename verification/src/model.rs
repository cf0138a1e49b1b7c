//! What the commands mean: a small model of the device's buffer memory, and
//! the laws that the library's schedules obey on it.
//!
//! The model knows nothing of what a kernel computes. A kernel is any
//! function from the contents of the blocks it reads to the contents of the
//! blocks it writes; the laws hold for every such function.

use vstd::prelude::*;
use crate::buffer::{Buffer, BufferError};
use crate::command::Command;
use crate::format::ElementType;
use crate::pipeline::{bind_block, repeated, Layout, Pipeline, RenderLayout};
use crate::program::dispatch_commands;
use crate::stage::{
    lemma_schedule_concat, lemma_schedule_synchronized, only_binds, schedule, stage_commands,
    synchronized, StageView,
};

verus! {

/// A compute kernel, seen from outside.
pub struct Kernel {
    /// The storage blocks it reads, in the order in which `run` takes them.
    pub reads: Seq<u32>,
    /// The storage blocks it writes, in the order in which `run` gives them.
    pub writes: Seq<u32>,
    /// New contents of the written blocks, from the contents of the read ones.
    pub run: spec_fn(Seq<Seq<u8>>) -> Seq<Seq<u8>>,
}

/// The state of the device, as far as buffers go.
pub struct Device {
    /// Contents of each buffer, by handle.
    pub memory: Map<u32, Seq<u8>>,
    /// The buffer bound to each storage block, by program and block index.
    pub bound: Map<(u32, u32), u32>,
    /// The current program.
    pub current: u32,
    /// A dispatch has written and no barrier has followed yet.
    pub pending: bool,
    /// Some dispatch was launched while writes were pending, so what it
    /// read is not defined.
    pub hazard: bool,
}

/// Contents of the buffers bound to `blocks` of `program`.
pub open spec fn gather(d: Device, program: u32, blocks: Seq<u32>) -> Seq<Seq<u8>> {
    Seq::new(blocks.len(), |i: int| d.memory[d.bound[(program, blocks[i])]])
}

/// `memory` after `data[i]` was written to the buffer bound to `blocks[i]`
/// of `program`, for each `i` in turn.
pub open spec fn scatter(
    memory: Map<u32, Seq<u8>>,
    bound: Map<(u32, u32), u32>,
    program: u32,
    blocks: Seq<u32>,
    data: Seq<Seq<u8>>,
) -> Map<u32, Seq<u8>>
    decreases blocks.len(),
{
    if blocks.len() == 0 {
        memory
    } else {
        scatter(memory, bound, program, blocks.drop_last(), data).insert(
            bound[(program, blocks.last())],
            data[blocks.len() - 1],
        )
    }
}

/// The device after one command. Commands that touch no buffer (images,
/// uniforms, releases) leave this model unchanged; host transfers, which
/// need the host array, get their meaning from `upload` and `download`.
pub open spec fn perform(d: Device, c: Command, kernels: Map<u32, Kernel>) -> Device {
    match c {
        Command::BindStorageBuffer { program, block, point, buffer } => Device {
            bound: d.bound.insert((program, block), buffer),
            ..d
        },
        Command::UseProgram { program } => Device { current: program, ..d },
        Command::DispatchCompute { x, y, z } => {
            let k = kernels[d.current];
            Device {
                memory: scatter(
                    d.memory,
                    d.bound,
                    d.current,
                    k.writes,
                    (k.run)(gather(d, d.current, k.reads)),
                ),
                pending: true,
                hazard: d.hazard || d.pending,
                ..d
            }
        },
        Command::MemoryBarrier => Device { pending: false, ..d },
        _ => d,
    }
}

/// The device after a list of commands, first to last.
pub open spec fn perform_all(d: Device, cs: Seq<Command>, kernels: Map<u32, Kernel>) -> Device
    decreases cs.len(),
{
    if cs.len() == 0 {
        d
    } else {
        perform(perform_all(d, cs.drop_last(), kernels), cs.last(), kernels)
    }
}

/// Buffer memory after the upload or write `c` was performed with the host
/// array `data`.
pub open spec fn upload(memory: Map<u32, Seq<u8>>, c: Command, data: Seq<u8>) -> Map<
    u32,
    Seq<u8>,
> {
    match c {
        Command::BufferStorage { buffer, size, flags } => memory.insert(
            buffer,
            data.subrange(0, size as int),
        ),
        Command::WriteBuffer { buffer, offset, size } => memory.insert(
            buffer,
            memory[buffer].subrange(0, offset as int) + data.subrange(0, size as int)
                + memory[buffer].subrange(offset + size, memory[buffer].len() as int),
        ),
        _ => memory,
    }
}

/// What the read `c` copies into the host array.
pub open spec fn download(memory: Map<u32, Seq<u8>>, c: Command) -> Seq<u8> {
    match c {
        Command::ReadBuffer { buffer, offset, size } => memory[buffer].subrange(
            offset as int,
            offset + size,
        ),
        _ => Seq::empty(),
    }
}

pub proof fn lemma_perform_push(d: Device, cs: Seq<Command>, c: Command, kernels: Map<u32, Kernel>)
    ensures
        perform_all(d, cs.push(c), kernels) == perform(perform_all(d, cs, kernels), c, kernels),
{
    assert(cs.push(c).drop_last() =~= cs);
}

/// Performing two lists in a row is performing the second on what the
/// first leaves.
pub proof fn lemma_perform_concat(
    d: Device,
    a: Seq<Command>,
    b: Seq<Command>,
    kernels: Map<u32, Kernel>,
)
    ensures
        perform_all(d, a + b, kernels) == perform_all(perform_all(d, a, kernels), b, kernels),
    decreases b.len(),
{
    if b.len() == 0 {
        assert(a + b =~= a);
    } else {
        lemma_perform_concat(d, a, b.drop_last(), kernels);
        assert((a + b).drop_last() =~= a + b.drop_last());
    }
}

/// The upload that `storage` hands out and the read that `copy_data` hands
/// out for the same buffer address the same bytes: on a device that keeps
/// what it is given, reading back yields the host array bit for bit,
/// whatever its length and element type.
pub proof fn lemma_round_trip(
    before: Buffer,
    after: Buffer,
    element: ElementType,
    data: Seq<u8>,
    flags: u32,
    memory: Map<u32, Seq<u8>>,
)
    requires
        data.len() <= usize::MAX,
        before.storage_error(element, data.len()) is None,
        after.stored_from(before, element, data.len(), flags),
    ensures
        after.read_error(element, data.len()) is None,
        download(
            upload(
                memory,
                Command::BufferStorage {
                    buffer: before.spec_handle(),
                    size: data.len() as usize,
                    flags,
                },
                data,
            ),
            after.read_command(),
        ) == data,
{
    assert(data.subrange(0, data.len() as int) =~= data);
}

/// The write that `write` hands out replaces the whole store, and the read
/// that `copy_data` hands out reads all of it: after a write, reading back
/// yields the written host array bit for bit.
pub proof fn lemma_write_round_trip(
    b: Buffer,
    element: ElementType,
    data: Seq<u8>,
    memory: Map<u32, Seq<u8>>,
)
    requires
        data.len() <= usize::MAX,
        b.write_error(element, data.len()) is None,
        memory.dom().contains(b.spec_handle()),
        memory[b.spec_handle()].len() == b.byte_size(),
    ensures
        b.read_error(element, data.len()) is None,
        download(upload(memory, b.write_command(), data), b.read_command()) == data,
{
    let old = memory[b.spec_handle()];
    let n = data.len() as int;
    assert(old.subrange(0, 0) + data.subrange(0, n) + old.subrange(n, old.len() as int) =~= data);
    assert(data.subrange(0, n) =~= data);
}

/// A read or a write with another element type than the buffer was stored
/// with is always turned down, whatever the length of the host array and
/// whatever the flags; and once a buffer has its store, no later `storage`
/// is accepted, of whatever type.
pub proof fn lemma_type_safety(b: Buffer, stored: ElementType, asked: ElementType, n: nat)
    requires
        b.spec_element() == Some(stored),
        asked != stored,
    ensures
        b.read_error(asked, n) == Some(BufferError::TypeMismatch),
        b.write_error(asked, n) == Some(BufferError::TypeMismatch),
        b.storage_error(asked, n) is Some,
        b.storage_error(stored, n) is Some,
{
}

/// A read into, or a write from, a host array that is longer or shorter
/// than the store is always turned down.
pub proof fn lemma_size_safety(b: Buffer, element: ElementType, n: nat)
    requires
        n != b.byte_size(),
    ensures
        b.read_error(element, n) is Some,
        b.write_error(element, n) is Some,
        b.spec_element() == Some(element) ==> b.read_error(element, n) == Some(
            BufferError::SizeMismatch,
        ) && b.write_error(element, n) == Some(BufferError::SizeMismatch),
{
}

/// The blocks that the gravity kernel reads: the positions, and the masses
/// where the pipeline has a mass buffer.
pub open spec fn gravity_reads(l: Layout) -> Seq<u32> {
    match l.mass {
        Some(m) => seq![l.gravity_position, m.block],
        None => seq![l.gravity_position],
    }
}

/// What the gravity kernel is given, in `memory`.
pub open spec fn gravity_inputs(l: Layout, memory: Map<u32, Seq<u8>>) -> Seq<Seq<u8>> {
    match l.mass {
        Some(m) => seq![memory[l.position], memory[m.buffer]],
        None => seq![memory[l.position]],
    }
}

/// The gravity kernel reads the positions, and the masses if there are any,
/// and writes the accelerations;
/// the integration kernel reads positions, velocities and accelerations
/// and writes positions and velocities.
pub open spec fn physics_kernels(l: Layout, kernels: Map<u32, Kernel>) -> bool {
    &&& kernels[l.gravity].reads == gravity_reads(l)
    &&& kernels[l.gravity].writes == seq![l.gravity_acceleration]
    &&& kernels[l.integrate].reads == seq![
        l.integrate_position,
        l.integrate_velocity,
        l.integrate_acceleration,
    ]
    &&& kernels[l.integrate].writes == seq![l.integrate_position, l.integrate_velocity]
}

/// The render kernels write no buffer (they write the field, an image).
pub open spec fn render_kernels(r: Option<RenderLayout>, kernels: Map<u32, Kernel>) -> bool {
    r matches Some(r) ==> kernels[r.scatter].writes.len() == 0 && kernels[r.decay].writes.len()
        == 0
}

/// The accelerations that the gravity kernel computes from `memory`.
pub open spec fn gravity_of(l: Layout, kernels: Map<u32, Kernel>, memory: Map<u32, Seq<u8>>) -> Seq<
    u8,
> {
    (kernels[l.gravity].run)(gravity_inputs(l, memory))[0]
}

/// The positions (at 0) and velocities (at 1) that the integration kernel
/// computes from `memory`.
pub open spec fn integration_of(
    l: Layout,
    kernels: Map<u32, Kernel>,
    memory: Map<u32, Seq<u8>>,
) -> Seq<Seq<u8>> {
    (kernels[l.integrate].run)(
        seq![memory[l.position], memory[l.velocity], memory[l.acceleration]],
    )
}

/// What one step's physics makes of buffer memory: the accelerations are
/// gravity's, from the positions before the step; positions and velocities
/// are the integration's, from the state before the step and those new
/// accelerations.
pub open spec fn after_physics(l: Layout, kernels: Map<u32, Kernel>, memory: Map<u32, Seq<u8>>)
    -> Map<u32, Seq<u8>> {
    let with_gravity = memory.insert(l.acceleration, gravity_of(l, kernels, memory));
    let moved = integration_of(l, kernels, with_gravity);
    with_gravity.insert(l.position, moved[0]).insert(l.velocity, moved[1])
}

/// One dispatch with its barrier: the current program's kernel runs on
/// what is bound, its writes land, and nothing is left pending.
proof fn lemma_dispatch(d: Device, program: u32, x: u32, y: u32, z: u32, kernels: Map<u32, Kernel>)
    ensures
        ({
            let e = perform_all(d, dispatch_commands(program, x, y, z), kernels);
            let k = kernels[program];
            &&& e.memory == scatter(
                d.memory,
                d.bound,
                program,
                k.writes,
                (k.run)(gather(d, program, k.reads)),
            )
            &&& e.bound == d.bound
            &&& e.current == program
            &&& !e.pending
            &&& e.hazard == (d.hazard || d.pending)
        }),
{
    let cs = dispatch_commands(program, x, y, z);
    let s0 = Seq::<Command>::empty();
    let s1 = s0.push(cs[0]);
    let s2 = s1.push(cs[1]);
    let s3 = s2.push(cs[2]);
    assert(s3 =~= cs);
    lemma_perform_push(d, s0, cs[0], kernels);
    lemma_perform_push(d, s1, cs[1], kernels);
    lemma_perform_push(d, s2, cs[2], kernels);
    let d1 = perform_all(d, s1, kernels);
    assert(gather(d1, program, kernels[program].reads) =~= gather(d, program, kernels[program].reads));
}

proof fn lemma_two_commands(d: Device, a: Command, b: Command, kernels: Map<u32, Kernel>)
    ensures
        perform_all(d, seq![a, b], kernels) == perform(perform(d, a, kernels), b, kernels),
{
    let s0 = Seq::<Command>::empty();
    let s1 = s0.push(a);
    assert(s1.push(b) =~= seq![a, b]);
    lemma_perform_push(d, s0, a, kernels);
    lemma_perform_push(d, s1, b, kernels);
}

proof fn lemma_one_command(d: Device, a: Command, kernels: Map<u32, Kernel>)
    ensures
        perform_all(d, seq![a], kernels) == perform(d, a, kernels),
{
    let s0 = Seq::<Command>::empty();
    assert(s0.push(a) =~= seq![a]);
    lemma_perform_push(d, s0, a, kernels);
}

proof fn lemma_gravity_stage(l: Layout, kernels: Map<u32, Kernel>, d: Device)
    requires
        l.valid(),
        physics_kernels(l, kernels),
    ensures
        ({
            let e = perform_all(d, l.gravity_commands(), kernels);
            &&& e.memory == d.memory.insert(l.acceleration, gravity_of(l, kernels, d.memory))
            &&& !e.pending
            &&& e.hazard == (d.hazard || d.pending)
        }),
{
    let b0 = bind_block(l.gravity, l.gravity_position, l.position);
    let b1 = bind_block(l.gravity, l.gravity_acceleration, l.acceleration);
    let binds = seq![b0, b1];
    let launch = dispatch_commands(l.gravity, l.particles, 1, 1);
    let k = kernels[l.gravity];
    lemma_perform_concat(d, binds + l.mass_commands(), launch, kernels);
    lemma_perform_concat(d, binds, l.mass_commands(), kernels);
    lemma_two_commands(d, b0, b1, kernels);
    let d2 = perform_all(d, binds, kernels);
    let d3 = perform_all(d2, l.mass_commands(), kernels);
    match l.mass {
        Some(m) => {
            lemma_one_command(d2, bind_block(l.gravity, m.block, m.buffer), kernels);
            assert(d3.bound[(l.gravity, m.block)] == m.buffer);
        },
        None => {},
    }
    assert(d3.memory == d.memory);
    assert(d3.bound[(l.gravity, l.gravity_position)] == l.position);
    assert(d3.bound[(l.gravity, l.gravity_acceleration)] == l.acceleration);
    lemma_dispatch(d3, l.gravity, l.particles, 1, 1, kernels);
    assert(gather(d3, l.gravity, k.reads) =~= gravity_inputs(l, d.memory));
    reveal_with_fuel(scatter, 3);
    assert(k.writes.drop_last().len() == 0);
}

proof fn lemma_integrate_stage(l: Layout, kernels: Map<u32, Kernel>, d: Device)
    requires
        l.valid(),
        physics_kernels(l, kernels),
    ensures
        ({
            let e = perform_all(d, l.integrate_commands(), kernels);
            let moved = integration_of(l, kernels, d.memory);
            &&& e.memory == d.memory.insert(l.position, moved[0]).insert(l.velocity, moved[1])
            &&& !e.pending
            &&& e.hazard == (d.hazard || d.pending)
        }),
{
    let b0 = bind_block(l.integrate, l.integrate_position, l.position);
    let b1 = bind_block(l.integrate, l.integrate_velocity, l.velocity);
    let b2 = bind_block(l.integrate, l.integrate_acceleration, l.acceleration);
    let launch = dispatch_commands(l.integrate, l.particles, 1, 1);
    let k = kernels[l.integrate];
    assert(seq![b0, b1, b2] =~= seq![b0, b1] + seq![b2]);
    lemma_perform_concat(d, seq![b0, b1, b2], launch, kernels);
    lemma_perform_concat(d, seq![b0, b1], seq![b2], kernels);
    lemma_two_commands(d, b0, b1, kernels);
    lemma_one_command(perform_all(d, seq![b0, b1], kernels), b2, kernels);
    let d3 = perform_all(d, seq![b0, b1, b2], kernels);
    assert(d3.memory == d.memory);
    assert(d3.bound[(l.integrate, l.integrate_position)] == l.position);
    assert(d3.bound[(l.integrate, l.integrate_velocity)] == l.velocity);
    assert(d3.bound[(l.integrate, l.integrate_acceleration)] == l.acceleration);
    lemma_dispatch(d3, l.integrate, l.particles, 1, 1, kernels);
    assert(gather(d3, l.integrate, k.reads) =~= seq![
        d.memory[l.position],
        d.memory[l.velocity],
        d.memory[l.acceleration],
    ]);
    reveal_with_fuel(scatter, 4);
    assert(k.writes.drop_last() =~= seq![l.integrate_position]);
    assert(k.writes.drop_last().drop_last().len() == 0);
}

/// Within the physics of one step the gravity stage comes first and its
/// barrier comes before the integration's dispatch. So the accelerations
/// after the step are computed from the positions before it, the
/// integration moves the particles by those accelerations and not by stale
/// ones, and no dispatch reads what an earlier one has not finished writing.
pub proof fn lemma_physics_order(l: Layout, kernels: Map<u32, Kernel>, d: Device)
    requires
        l.valid(),
        physics_kernels(l, kernels),
    ensures
        ({
            let e = perform_all(d, l.physics_commands(), kernels);
            &&& e.memory == after_physics(l, kernels, d.memory)
            &&& e.memory[l.acceleration] == gravity_of(l, kernels, d.memory)
            &&& !e.pending
            &&& e.hazard == (d.hazard || d.pending)
        }),
{
    lemma_perform_concat(d, l.gravity_commands(), l.integrate_commands(), kernels);
    lemma_gravity_stage(l, kernels, d);
    lemma_integrate_stage(l, kernels, perform_all(d, l.gravity_commands(), kernels));
}

proof fn lemma_render_stage(
    r: RenderLayout,
    position: u32,
    particles: u32,
    kernels: Map<u32, Kernel>,
    d: Device,
)
    requires
        render_kernels(Some(r), kernels),
        !d.pending,
    ensures
        ({
            let e = perform_all(d, r.render_commands(position, particles), kernels);
            &&& e.memory == d.memory
            &&& !e.pending
            &&& e.hazard == d.hazard
        }),
{
    let b0 = bind_block(r.scatter, r.scatter_position, position);
    let scatter_launch = dispatch_commands(r.scatter, particles, 1, 1);
    let decay_launch = dispatch_commands(r.decay, r.width, r.height, 1);
    let binds = seq![b0, r.bind_field()];
    let rebind = seq![r.bind_field()];
    lemma_perform_concat(d, binds + scatter_launch, rebind + decay_launch, kernels);
    lemma_perform_concat(d, binds, scatter_launch, kernels);
    lemma_two_commands(d, b0, r.bind_field(), kernels);
    let d2 = perform_all(d, binds, kernels);
    lemma_dispatch(d2, r.scatter, particles, 1, 1, kernels);
    let d5 = perform_all(d2, scatter_launch, kernels);
    lemma_perform_concat(d5, rebind, decay_launch, kernels);
    lemma_one_command(d5, r.bind_field(), kernels);
    lemma_dispatch(perform_all(d5, rebind, kernels), r.decay, r.width, r.height, 1, kernels);
}

/// One whole step, on a device with no write pending: afterwards the
/// acceleration buffer holds what gravity makes of the positions from
/// before the step, positions and velocities are advanced by exactly those
/// accelerations, the render preparation has changed no buffer, nothing is
/// pending, and the step has added no hazard.
pub proof fn lemma_step_order(p: &Pipeline, kernels: Map<u32, Kernel>, d: Device)
    requires
        p.spec_layout().valid(),
        physics_kernels(p.spec_layout(), kernels),
        render_kernels(p.spec_render(), kernels),
        !d.pending,
    ensures
        ({
            let l = p.spec_layout();
            let e = perform_all(d, p.step_commands(), kernels);
            let a = gravity_of(l, kernels, d.memory);
            let moved = integration_of(l, kernels, d.memory.insert(l.acceleration, a));
            &&& e.memory == after_physics(l, kernels, d.memory)
            &&& e.memory[l.acceleration] == a
            &&& e.memory[l.position] == moved[0]
            &&& e.memory[l.velocity] == moved[1]
            &&& !e.pending
            &&& e.hazard == d.hazard
        }),
{
    let l = p.spec_layout();
    lemma_physics_order(l, kernels, d);
    lemma_perform_concat(d, l.physics_commands(), p.render_commands(), kernels);
    let m = perform_all(d, l.physics_commands(), kernels);
    match p.spec_render() {
        Some(r) => {
            lemma_render_stage(r, l.position, l.particles, kernels, m);
        },
        None => {},
    }
}

/// Buffer memory after the physics of `n` steps in a row.
pub open spec fn after_steps(
    l: Layout,
    kernels: Map<u32, Kernel>,
    memory: Map<u32, Seq<u8>>,
    n: nat,
) -> Map<u32, Seq<u8>>
    decreases n,
{
    if n == 0 {
        memory
    } else {
        after_physics(l, kernels, after_steps(l, kernels, memory, (n - 1) as nat))
    }
}

proof fn lemma_repeated_physics(l: Layout, kernels: Map<u32, Kernel>, d: Device, n: nat)
    requires
        l.valid(),
        physics_kernels(l, kernels),
        !d.pending,
    ensures
        ({
            let e = perform_all(d, repeated(l.physics_commands(), n), kernels);
            &&& e.memory == after_steps(l, kernels, d.memory, n)
            &&& !e.pending
            &&& e.hazard == d.hazard
        }),
    decreases n,
{
    if n > 0 {
        let head = repeated(l.physics_commands(), (n - 1) as nat);
        lemma_repeated_physics(l, kernels, d, (n - 1) as nat);
        lemma_perform_concat(d, head, l.physics_commands(), kernels);
        lemma_physics_order(l, kernels, perform_all(d, head, kernels));
    }
}

/// What `steps(n)` hands out, on a device with no write pending: each of
/// the `n` rounds of physics works on what the round before it left, the
/// render preparation changes no buffer, nothing is pending at the end,
/// and no dispatch has read what another had not finished writing.
pub proof fn lemma_steps_order(p: &Pipeline, kernels: Map<u32, Kernel>, d: Device, n: nat)
    requires
        p.spec_layout().valid(),
        physics_kernels(p.spec_layout(), kernels),
        render_kernels(p.spec_render(), kernels),
        !d.pending,
    ensures
        ({
            let e = perform_all(d, p.steps_commands(n), kernels);
            &&& e.memory == after_steps(p.spec_layout(), kernels, d.memory, n)
            &&& !e.pending
            &&& e.hazard == d.hazard
        }),
{
    let l = p.spec_layout();
    let physics = repeated(l.physics_commands(), n);
    lemma_repeated_physics(l, kernels, d, n);
    lemma_perform_concat(d, physics, p.render_commands(), kernels);
    match p.spec_render() {
        Some(r) => {
            lemma_render_stage(r, l.position, l.particles, kernels, perform_all(d, physics, kernels));
        },
        None => {},
    }
}

/// The commands of a step are the schedule of the pipeline's stages in
/// their fixed order: gravity before integration, integration before the
/// render preparation. Every dispatch among them has its barrier.
pub proof fn lemma_step_is_schedule(p: &Pipeline)
    ensures
        p.step_commands() == schedule(p.spec_stages()),
        synchronized(p.step_commands()),
{
    let l = p.spec_layout();
    let physics = seq![l.gravity_stage(), l.integrate_stage()];
    let render = match p.spec_render() {
        Some(r) => seq![r.scatter_stage(l.position, l.particles), r.decay_stage()],
        None => Seq::empty(),
    };
    lemma_schedule_concat(physics, render);
    lemma_schedule_pair(l.gravity_stage(), l.integrate_stage());
    match p.spec_render() {
        Some(r) => {
            lemma_schedule_pair(r.scatter_stage(l.position, l.particles), r.decay_stage());
        },
        None => {
            assert(schedule(render) =~= Seq::<Command>::empty());
        },
    }
    assert(only_binds(l.gravity_stage()));
    assert forall|k: int| 0 <= k < p.spec_stages().len() implies only_binds(
        #[trigger] p.spec_stages()[k],
    ) by {
        if k >= 2 {
            assert(p.spec_stages()[k] == render[k - 2]);
        }
    }
    lemma_schedule_synchronized(p.spec_stages());
}

proof fn lemma_schedule_pair(a: StageView, b: StageView)
    ensures
        schedule(seq![a, b]) == stage_commands(a) + stage_commands(b),
{
    let one = seq![a];
    assert(seq![a, b].drop_last() =~= one);
    assert(one.drop_last() =~= Seq::<StageView>::empty());
    assert(schedule(one.drop_last()) =~= Seq::<Command>::empty());
    assert(schedule(one) =~= stage_commands(a));
}

/// Every dispatch of a step's physics runs over the grid that the particle
/// count gives, and over nothing else.
pub proof fn lemma_dispatch_grid(l: Layout, i: int)
    requires
        0 <= i < l.physics_commands().len(),
        l.physics_commands()[i] is DispatchCompute,
    ensures
        l.physics_commands()[i] == (Command::DispatchCompute { x: l.particles, y: 1, z: 1 }),
{
}

/// What `terminate` hands out releases no buffer, no program and no
/// texture twice.
pub proof fn lemma_release_once(p: &Pipeline)
    requires
        p.valid(),
    ensures
        p.release_commands().no_duplicates(),
{
    let cs = p.release_commands();
    let l = p.spec_layout();
    let buffers = seq![
        Command::DeleteBuffer { buffer: l.position },
        Command::DeleteBuffer { buffer: l.velocity },
        Command::DeleteBuffer { buffer: l.acceleration },
    ] + (match l.mass {
        Some(m) => seq![Command::DeleteBuffer { buffer: m.buffer }],
        None => Seq::empty(),
    });
    let programs = seq![
        Command::DeleteProgram { program: l.gravity },
        Command::DeleteProgram { program: l.integrate },
    ];
    let rest = match p.spec_render() {
        Some(r) => r.release_commands(),
        None => Seq::empty(),
    };
    assert(cs =~= buffers + programs + rest);
    assert(buffers.no_duplicates());
    assert(forall|i: int| 0 <= i < buffers.len() ==> #[trigger] buffers[i] is DeleteBuffer);
    assert((programs + rest).no_duplicates());
    assert(forall|i: int| 0 <= i < (programs + rest).len() ==> !(#[trigger] (programs + rest)[i] is DeleteBuffer));
    assert forall|i: int, j: int| 0 <= i < cs.len() && 0 <= j < cs.len() && i != j implies cs[i]
        != cs[j] by {
        let tail = programs + rest;
        assert(cs =~= buffers + tail);
        if i < buffers.len() && j < buffers.len() {
            assert(buffers[i] != buffers[j]);
        } else if i >= buffers.len() && j >= buffers.len() {
            assert(tail[i - buffers.len()] != tail[j - buffers.len()]);
        } else if i < buffers.len() {
            assert(buffers[i] is DeleteBuffer);
            assert(!(tail[j - buffers.len()] is DeleteBuffer));
        } else {
            assert(buffers[j] is DeleteBuffer);
            assert(!(tail[i - buffers.len()] is DeleteBuffer));
        }
    }
}

/// Two pipelines with the same setup hand out the same step, so the grid
/// is the same step after step: `step`, `steps`, `complete` keep the setup.
pub proof fn lemma_step_repeats(before: &Pipeline, after: &Pipeline)
    requires
        after.same_setup(before),
    ensures
        after.step_commands() == before.step_commands(),
        forall|n: nat| after.steps_commands(n) == before.steps_commands(n),
{
}

} // verus!
