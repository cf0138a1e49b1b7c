use gl_obj::binding::BindingTable;
use gl_obj::buffer::Buffer;
use gl_obj::command::Command;
use gl_obj::format::{Access, ElementType, PixelFormat};
use gl_obj::pipeline::{
    image_grid, particle_grid, Layout, MassBinding, ParticleBuffers, Phase, Pipeline, PipelineError,
    RenderLayout, RenderPrep,
};
use gl_obj::program::{Program, StageKind};
use gl_obj::stage::{commands_of, Stage};
use gl_obj::texture::Texture;
use std::collections::HashMap;

const GRAVITY: u32 = 100;
const INTEGRATE: u32 = 101;
const SCATTER: u32 = 102;
const DECAY: u32 = 103;
const POS: u32 = 1;
const VEL: u32 = 2;
const ACC: u32 = 3;
const MASS: u32 = 4;
const FIELD: u32 = 50;

fn program_with(handle: u32, stages: &[StageKind], blocks: &[(&str, u32)]) -> Program {
    let mut t = BindingTable::new();
    for (name, point) in blocks {
        t.insert(name.to_string(), *point).unwrap();
    }
    Program::create(handle, stages, t, BindingTable::new()).unwrap()
}

fn gravity_program() -> Program {
    program_with(GRAVITY, &[StageKind::Compute], &[("position", 0), ("acceleration", 1)])
}

fn integrate_program() -> Program {
    program_with(
        INTEGRATE,
        &[StageKind::Compute],
        &[("position", 4), ("velocity", 5), ("acceleration", 6)],
    )
}

fn draw_program() -> Program {
    program_with(7, &[StageKind::Vertex, StageKind::Fragment], &[("position", 0), ("acceleration", 1)])
}

fn stored(handle: u32, count: usize) -> Buffer {
    Buffer::new(handle, ElementType::Vec2, &vec![0u8; count * 8], 0).unwrap().0
}

fn render_prep() -> RenderPrep {
    RenderPrep {
        scatter: program_with(SCATTER, &[StageKind::Compute], &[("position", 9)]),
        decay: program_with(DECAY, &[StageKind::Compute], &[]),
        field: Texture::create_2d(FIELD, PixelFormat::Rgba8ui, 64, 32).unwrap().0,
    }
}

fn three(position: Buffer, velocity: Buffer, acceleration: Buffer) -> ParticleBuffers {
    ParticleBuffers { position, velocity, acceleration, mass: None }
}

fn buffers_of(count: usize) -> ParticleBuffers {
    three(stored(POS, count), stored(VEL, count), stored(ACC, count))
}

fn weighted(mass: Buffer) -> ParticleBuffers {
    ParticleBuffers { mass: Some(mass), ..buffers_of(4) }
}

fn masses(handle: u32, count: usize) -> Buffer {
    Buffer::new(handle, ElementType::F32, &vec![0u8; count * 4], 0).unwrap().0
}

fn gravity_with_mass() -> Program {
    program_with(
        GRAVITY,
        &[StageKind::Compute],
        &[("position", 0), ("acceleration", 1), ("mass", 2)],
    )
}

fn headless(count: usize) -> Pipeline {
    Pipeline::new(gravity_program(), integrate_program(), buffers_of(count), None).unwrap()
}

fn interactive(count: usize) -> Pipeline {
    Pipeline::new(gravity_program(), integrate_program(), buffers_of(count), Some(render_prep()))
        .unwrap()
}

fn bind(program: u32, block: u32, buffer: u32) -> Command {
    Command::BindStorageBuffer { program, block, point: block, buffer }
}

fn physics_of(count: u32) -> Vec<Command> {
    vec![
        bind(GRAVITY, 0, POS),
        bind(GRAVITY, 1, ACC),
        Command::UseProgram { program: GRAVITY },
        Command::DispatchCompute { x: count, y: 1, z: 1 },
        Command::MemoryBarrier,
        bind(INTEGRATE, 4, POS),
        bind(INTEGRATE, 5, VEL),
        bind(INTEGRATE, 6, ACC),
        Command::UseProgram { program: INTEGRATE },
        Command::DispatchCompute { x: count, y: 1, z: 1 },
        Command::MemoryBarrier,
    ]
}

fn render_of(count: u32) -> Vec<Command> {
    let field = Command::BindImageUnit {
        unit: 0,
        texture: FIELD,
        access: Access::ReadWrite,
        format: PixelFormat::Rgba8ui,
    };
    vec![
        bind(SCATTER, 9, POS),
        field,
        Command::UseProgram { program: SCATTER },
        Command::DispatchCompute { x: count, y: 1, z: 1 },
        Command::MemoryBarrier,
        field,
        Command::UseProgram { program: DECAY },
        Command::DispatchCompute { x: 64, y: 32, z: 1 },
        Command::MemoryBarrier,
    ]
}

#[test]
fn grids_follow_the_domain() {
    assert_eq!(particle_grid(0), (0, 1, 1));
    assert_eq!(particle_grid(1024), (1024, 1, 1));
    assert_eq!(particle_grid(u32::MAX), (u32::MAX, 1, 1));
    assert_eq!(image_grid(1024, 512), (1024, 512, 1));
}

#[test]
fn new_pipeline_is_ready_with_resolved_layout() {
    let p = interactive(12);
    assert_eq!(p.phase(), Phase::Ready);
    assert_eq!(p.particles(), 12);
    assert_eq!(
        p.layout(),
        Layout {
            gravity: GRAVITY,
            integrate: INTEGRATE,
            position: POS,
            velocity: VEL,
            acceleration: ACC,
            gravity_position: 0,
            gravity_acceleration: 1,
            integrate_position: 4,
            integrate_velocity: 5,
            integrate_acceleration: 6,
            particles: 12,
            mass: None,
        }
    );
    assert_eq!(
        p.render(),
        Some(RenderLayout {
            scatter: SCATTER,
            scatter_position: 9,
            decay: DECAY,
            field: FIELD,
            format: PixelFormat::Rgba8ui,
            width: 64,
            height: 32,
        })
    );
    assert_eq!(p.position().handle(), POS);
    assert_eq!(p.velocity().handle(), VEL);
    assert_eq!(p.acceleration().handle(), ACC);
    assert_eq!(p.position().len(), 12);
    assert_eq!(p.gravity_program().handle(), GRAVITY);
    assert_eq!(p.integrate_program().handle(), INTEGRATE);
    assert_eq!(p.render_prep().map(|r| r.field.handle()), Some(FIELD));
    assert_eq!(p.render_prep().map(|r| r.scatter.handle()), Some(SCATTER));
    assert_eq!(p.render_prep().map(|r| r.decay.handle()), Some(DECAY));
    assert!(headless(3).render_prep().is_none());
    assert_eq!(headless(3).render(), None);
}

#[test]
fn new_turns_draw_programs_down() {
    let r = Pipeline::new(draw_program(), integrate_program(), three(stored(1, 4), stored(2, 4), stored(3, 4)), None);
    assert_eq!(r.err(), Some(PipelineError::NotCompute));
    let r = Pipeline::new(gravity_program(), draw_program(), three(stored(1, 4), stored(2, 4), stored(3, 4)), None);
    assert_eq!(r.err(), Some(PipelineError::NotCompute));
    let mut prep = render_prep();
    prep.decay = draw_program();
    let r = Pipeline::new(gravity_program(), integrate_program(), three(stored(1, 4), stored(2, 4), stored(3, 4)), Some(prep));
    assert_eq!(r.err(), Some(PipelineError::NotCompute));
}

#[test]
fn new_turns_missing_blocks_down() {
    let no_acc = program_with(GRAVITY, &[StageKind::Compute], &[("position", 0)]);
    let r = Pipeline::new(no_acc, integrate_program(), three(stored(1, 4), stored(2, 4), stored(3, 4)), None);
    assert_eq!(r.err(), Some(PipelineError::MissingBlock));
    let r = Pipeline::new(gravity_program(), gravity_program(), three(stored(1, 4), stored(2, 4), stored(3, 4)), None);
    assert_eq!(r.err(), Some(PipelineError::MissingBlock));
    let mut prep = render_prep();
    prep.scatter = program_with(SCATTER, &[StageKind::Compute], &[]);
    let r = Pipeline::new(gravity_program(), integrate_program(), three(stored(1, 4), stored(2, 4), stored(3, 4)), Some(prep));
    assert_eq!(r.err(), Some(PipelineError::MissingBlock));
}

#[test]
fn new_turns_bad_buffers_down() {
    let r = Pipeline::new(gravity_program(), integrate_program(), three(stored(1, 4), Buffer::create(2), stored(3, 4)), None);
    assert_eq!(r.err(), Some(PipelineError::NoStore));
    let r = Pipeline::new(gravity_program(), integrate_program(), three(stored(1, 4), stored(2, 5), stored(3, 4)), None);
    assert_eq!(r.err(), Some(PipelineError::LengthMismatch));
    let r = Pipeline::new(gravity_program(), integrate_program(), three(stored(1, 4), stored(2, 4), stored(3, 3)), None);
    assert_eq!(r.err(), Some(PipelineError::LengthMismatch));
    let r = Pipeline::new(gravity_program(), integrate_program(), three(stored(1, 4), stored(1, 4), stored(3, 4)), None);
    assert_eq!(r.err(), Some(PipelineError::Aliased));
    let r = Pipeline::new(gravity_program(), integrate_program(), three(stored(1, 4), stored(2, 4), stored(2, 4)), None);
    assert_eq!(r.err(), Some(PipelineError::Aliased));
    let r = Pipeline::new(gravity_program(), integrate_program(), three(stored(3, 4), stored(2, 4), stored(3, 4)), None);
    assert_eq!(r.err(), Some(PipelineError::Aliased));
    let r = Pipeline::new(draw_program(), integrate_program(), three(stored(1, 4), stored(1, 5), Buffer::create(1)), None);
    assert_eq!(r.err(), Some(PipelineError::NotCompute));
}

#[test]
fn new_turns_shared_programs_down() {
    let both = || {
        program_with(
            GRAVITY,
            &[StageKind::Compute],
            &[("position", 0), ("velocity", 1), ("acceleration", 2)],
        )
    };
    let r = Pipeline::new(both(), both(), three(stored(1, 4), stored(2, 4), stored(3, 4)), None);
    assert_eq!(r.err(), Some(PipelineError::Aliased));
    let mut prep = render_prep();
    prep.decay = program_with(SCATTER, &[StageKind::Compute], &[]);
    let r = Pipeline::new(gravity_program(), integrate_program(), three(stored(1, 4), stored(2, 4), stored(3, 4)), Some(prep));
    assert_eq!(r.err(), Some(PipelineError::Aliased));
    let mut prep = render_prep();
    prep.scatter = program_with(INTEGRATE, &[StageKind::Compute], &[("position", 9)]);
    let r = Pipeline::new(gravity_program(), integrate_program(), three(stored(1, 4), stored(2, 4), stored(3, 4)), Some(prep));
    assert_eq!(r.err(), Some(PipelineError::Aliased));
    let mut prep = render_prep();
    prep.decay = program_with(GRAVITY, &[StageKind::Compute], &[]);
    let r = Pipeline::new(gravity_program(), integrate_program(), three(stored(1, 4), Buffer::create(2), stored(3, 4)), Some(prep));
    assert_eq!(r.err(), Some(PipelineError::Aliased));
}

#[test]
fn with_particles_creates_and_fills_the_buffers() {
    let positions = vec![1u8; 5 * 8];
    let velocities = vec![2u8; 5 * 8];
    let (p, uploads) = Pipeline::with_particles(
        gravity_program(),
        integrate_program(),
        (POS, VEL, ACC),
        ElementType::Vec2,
        &positions,
        &velocities,
        0x100,
        None,
        None,
    )
    .unwrap();
    assert_eq!(
        uploads,
        vec![
            Command::BufferStorage { buffer: POS, size: 40, flags: 0x100 },
            Command::BufferStorage { buffer: VEL, size: 40, flags: 0x100 },
            Command::BufferStorage { buffer: ACC, size: 40, flags: 0x100 },
        ]
    );
    assert_eq!(p.particles(), 5);
    assert_eq!(p.phase(), Phase::Ready);
    assert_eq!(p.position().element(), Some(ElementType::Vec2));
    assert_eq!(p.position().flags(), 0x100);
    assert_eq!(p.acceleration().len(), 5);
    assert_eq!(p.layout().velocity, VEL);
    assert_eq!(p.layout().integrate_velocity, 5);
}

#[test]
fn with_particles_errors() {
    let build = |np: usize, nv: usize, handles: (u32, u32, u32)| {
        Pipeline::with_particles(
            gravity_program(),
            integrate_program(),
            handles,
            ElementType::Vec2,
            &vec![0u8; np],
            &vec![0u8; nv],
            0,
            None,
            None,
        )
        .map(|made| made.0.particles())
    };
    assert_eq!(build(16, 16, (1, 2, 3)), Ok(2));
    assert_eq!(build(0, 0, (1, 2, 3)), Ok(0));
    assert_eq!(build(12, 16, (1, 2, 3)), Err(PipelineError::PartialElement));
    assert_eq!(build(16, 17, (1, 2, 3)), Err(PipelineError::PartialElement));
    assert_eq!(build(16, 24, (1, 2, 3)), Err(PipelineError::LengthMismatch));
    assert_eq!(build(16, 16, (1, 1, 3)), Err(PipelineError::Aliased));
    let r = Pipeline::with_particles(
        draw_program(),
        integrate_program(),
        (1, 1, 3),
        ElementType::Vec2,
        &[0u8; 8],
        &[0u8; 8],
        0,
        None,
        None,
    );
    assert_eq!(r.err(), Some(PipelineError::NotCompute));
}

#[test]
fn step_is_gravity_then_integration() {
    let mut p = headless(1024);
    assert_eq!(p.step(), Ok(physics_of(1024)));
    assert_eq!(p.phase(), Phase::Stepping);
}

#[test]
fn interactive_step_ends_with_render_preparation() {
    let mut p = interactive(300);
    let mut expected = physics_of(300);
    expected.extend(render_of(300));
    assert_eq!(p.step(), Ok(expected));
}

#[test]
fn steps_repeats_physics_and_prepares_rendering_once() {
    let mut p = interactive(8);
    let mut expected = Vec::new();
    for _ in 0..6 {
        expected.extend(physics_of(8));
    }
    expected.extend(render_of(8));
    assert_eq!(p.steps(6), Ok(expected));

    let mut p = interactive(8);
    assert_eq!(p.steps(0), Ok(render_of(8)));
    let mut p = headless(8);
    assert_eq!(p.steps(0), Ok(vec![]));
    assert_eq!(p.phase(), Phase::Stepping);
}

#[test]
fn dispatch_width_is_the_particle_count_step_after_step() {
    for count in [0usize, 1, 7, 1024, 65_536] {
        let mut p = headless(count);
        let mut first: Option<Vec<Command>> = None;
        for _ in 0..4 {
            let cs = p.step().unwrap();
            p.complete().unwrap();
            let widths: Vec<u32> = cs
                .iter()
                .filter_map(|c| match c {
                    Command::DispatchCompute { x, y: 1, z: 1 } => Some(*x),
                    _ => None,
                })
                .collect();
            assert_eq!(widths, vec![count as u32, count as u32]);
            match &first {
                Some(f) => assert_eq!(&cs, f),
                None => first = Some(cs),
            }
        }
    }
}

#[test]
fn every_dispatch_is_followed_by_a_barrier() {
    let mut p = interactive(16);
    let cs = p.steps(3).unwrap();
    for (i, c) in cs.iter().enumerate() {
        if matches!(c, Command::DispatchCompute { .. }) {
            assert_eq!(cs.get(i + 1), Some(&Command::MemoryBarrier));
        }
    }
    assert_eq!(cs.last(), Some(&Command::MemoryBarrier));
}

#[test]
fn phases_follow_the_state_machine() {
    let mut p = headless(4);
    assert_eq!(p.complete(), Err(PipelineError::NotStepping));
    assert!(p.step().is_ok());
    assert_eq!(p.phase(), Phase::Stepping);
    assert_eq!(p.step(), Err(PipelineError::Busy));
    assert_eq!(p.steps(2), Err(PipelineError::Busy));
    assert_eq!(p.terminate(), Err(PipelineError::Busy));
    assert_eq!(p.phase(), Phase::Stepping);
    assert_eq!(p.complete(), Ok(()));
    assert_eq!(p.phase(), Phase::Ready);
    assert!(p.terminate().is_ok());
    assert_eq!(p.phase(), Phase::Terminated);
    assert_eq!(p.step(), Err(PipelineError::Terminated));
    assert_eq!(p.steps(1), Err(PipelineError::Terminated));
    assert_eq!(p.complete(), Err(PipelineError::Terminated));
    assert_eq!(p.terminate(), Err(PipelineError::Terminated));
    assert_eq!(p.particles(), 4);
}

#[test]
fn terminate_releases_everything_once() {
    let mut p = headless(4);
    assert_eq!(
        p.terminate(),
        Ok(vec![
            Command::DeleteBuffer { buffer: POS },
            Command::DeleteBuffer { buffer: VEL },
            Command::DeleteBuffer { buffer: ACC },
            Command::DeleteProgram { program: GRAVITY },
            Command::DeleteProgram { program: INTEGRATE },
        ])
    );
    let mut p = interactive(4);
    assert_eq!(
        p.terminate(),
        Ok(vec![
            Command::DeleteBuffer { buffer: POS },
            Command::DeleteBuffer { buffer: VEL },
            Command::DeleteBuffer { buffer: ACC },
            Command::DeleteProgram { program: GRAVITY },
            Command::DeleteProgram { program: INTEGRATE },
            Command::DeleteTexture { texture: FIELD },
            Command::DeleteProgram { program: SCATTER },
            Command::DeleteProgram { program: DECAY },
        ])
    );
}

/// A device whose kernels work on one byte per particle: gravity writes
/// `3 * position + 1`, integration adds the acceleration to the velocity
/// and the new velocity to the position.
struct ToyDevice {
    memory: HashMap<u32, Vec<u8>>,
    bound: HashMap<(u32, u32), u32>,
    current: u32,
    pending: bool,
    hazard: bool,
}

fn toy_gravity(position: &[u8]) -> Vec<u8> {
    position.iter().map(|p| p.wrapping_mul(3).wrapping_add(1)).collect()
}

fn toy_perform(d: &mut ToyDevice, c: &Command) {
    match *c {
        Command::BindStorageBuffer { program, block, buffer, .. } => {
            d.bound.insert((program, block), buffer);
        }
        Command::UseProgram { program } => d.current = program,
        Command::DispatchCompute { x, .. } => {
            d.hazard = d.hazard || d.pending;
            d.pending = true;
            if d.current == GRAVITY {
                let position = d.memory[&d.bound[&(GRAVITY, 0)]].clone();
                assert_eq!(position.len(), x as usize);
                d.memory.insert(d.bound[&(GRAVITY, 1)], toy_gravity(&position));
            } else if d.current == INTEGRATE {
                let position = d.memory[&d.bound[&(INTEGRATE, 4)]].clone();
                let velocity = d.memory[&d.bound[&(INTEGRATE, 5)]].clone();
                let acceleration = d.memory[&d.bound[&(INTEGRATE, 6)]].clone();
                let moved: Vec<u8> =
                    velocity.iter().zip(&acceleration).map(|(v, a)| v.wrapping_add(*a)).collect();
                let placed: Vec<u8> =
                    position.iter().zip(&moved).map(|(p, v)| p.wrapping_add(*v)).collect();
                d.memory.insert(d.bound[&(INTEGRATE, 4)], placed);
                d.memory.insert(d.bound[&(INTEGRATE, 5)], moved);
            }
        }
        Command::MemoryBarrier => d.pending = false,
        _ => {}
    }
}

#[test]
fn acceleration_after_a_step_is_from_positions_before_it() {
    let position = vec![10u8, 20, 30, 250];
    let velocity = vec![1u8, 2, 3, 4];
    let mut d = ToyDevice {
        memory: HashMap::new(),
        bound: HashMap::new(),
        current: 0,
        pending: false,
        hazard: false,
    };
    d.memory.insert(POS, position.clone());
    d.memory.insert(VEL, velocity.clone());
    d.memory.insert(ACC, vec![0u8; 4]);

    let scalar = |handle: u32| Buffer::new(handle, ElementType::F32, &[0u8; 16], 0).unwrap().0;
    let buffers = three(scalar(POS), scalar(VEL), scalar(ACC));
    let mut p = Pipeline::new(gravity_program(), integrate_program(), buffers, None).unwrap();
    for c in p.step().unwrap() {
        toy_perform(&mut d, &c);
    }
    p.complete().unwrap();

    // a = 3p + 1 on the old positions; v' = v + a; p' = p + v'
    assert_eq!(d.memory[&ACC], vec![31u8, 61, 91, 239]);
    assert_eq!(d.memory[&VEL], vec![32u8, 63, 94, 243]);
    assert_eq!(d.memory[&POS], vec![42u8, 83, 124, 237]);
    assert_eq!(d.memory[&ACC], toy_gravity(&position));
    assert_ne!(d.memory[&ACC], toy_gravity(&d.memory[&POS]));
    assert!(!d.pending);
    assert!(!d.hazard);
}

#[test]
fn mass_buffer_is_bound_in_the_gravity_stage() {
    let mut p =
        Pipeline::new(gravity_with_mass(), integrate_program(), weighted(masses(MASS, 4)), None)
            .unwrap();
    assert_eq!(p.layout().mass, Some(MassBinding { block: 2, buffer: MASS }));
    assert_eq!(p.mass().map(|m| m.handle()), Some(MASS));
    let mut expected = physics_of(4);
    expected.insert(2, bind(GRAVITY, 2, MASS));
    assert_eq!(p.step(), Ok(expected));
    assert!(headless(4).mass().is_none());
}

#[test]
fn mass_buffer_errors() {
    let r = Pipeline::new(gravity_program(), integrate_program(), weighted(masses(MASS, 4)), None);
    assert_eq!(r.err(), Some(PipelineError::MissingBlock));
    let r = Pipeline::new(gravity_with_mass(), integrate_program(), weighted(Buffer::create(MASS)), None);
    assert_eq!(r.err(), Some(PipelineError::NoStore));
    let r = Pipeline::new(gravity_with_mass(), integrate_program(), weighted(masses(MASS, 3)), None);
    assert_eq!(r.err(), Some(PipelineError::LengthMismatch));
    let r = Pipeline::new(gravity_with_mass(), integrate_program(), weighted(masses(MASS, 5)), None);
    assert_eq!(r.err(), Some(PipelineError::LengthMismatch));
    for taken in [POS, VEL, ACC] {
        let r = Pipeline::new(gravity_with_mass(), integrate_program(), weighted(masses(taken, 4)), None);
        assert_eq!(r.err(), Some(PipelineError::Aliased));
    }
    let r = Pipeline::new(gravity_with_mass(), integrate_program(), buffers_of(4), None);
    assert!(r.is_ok());
}

#[test]
fn with_particles_takes_a_mass_buffer() {
    let data = vec![0u8; 32];
    let build = |mass: Buffer| {
        Pipeline::with_particles(
            gravity_with_mass(),
            integrate_program(),
            (POS, VEL, ACC),
            ElementType::Vec2,
            &data,
            &data,
            0,
            Some(mass),
            None,
        )
    };
    let (p, uploads) = build(masses(MASS, 4)).unwrap();
    assert_eq!(uploads.len(), 3);
    assert_eq!(p.layout().mass, Some(MassBinding { block: 2, buffer: MASS }));
    assert_eq!(build(masses(MASS, 2)).err(), Some(PipelineError::LengthMismatch));
    assert_eq!(build(Buffer::create(MASS)).err(), Some(PipelineError::NoStore));
    assert_eq!(build(masses(VEL, 4)).err(), Some(PipelineError::Aliased));
}

#[test]
fn terminate_releases_the_mass_buffer_too() {
    let mut p =
        Pipeline::new(gravity_with_mass(), integrate_program(), weighted(masses(MASS, 4)), None)
            .unwrap();
    assert_eq!(
        p.terminate(),
        Ok(vec![
            Command::DeleteBuffer { buffer: POS },
            Command::DeleteBuffer { buffer: VEL },
            Command::DeleteBuffer { buffer: ACC },
            Command::DeleteBuffer { buffer: MASS },
            Command::DeleteProgram { program: GRAVITY },
            Command::DeleteProgram { program: INTEGRATE },
        ])
    );
}

#[test]
fn stages_come_in_fixed_order() {
    let p = interactive(9);
    let stages = p.stages();
    let programs: Vec<u32> = stages.iter().map(|s| s.program).collect();
    assert_eq!(programs, vec![GRAVITY, INTEGRATE, SCATTER, DECAY]);
    let grids: Vec<(u32, u32, u32)> = stages.iter().map(|s| s.grid).collect();
    assert_eq!(grids, vec![(9, 1, 1), (9, 1, 1), (9, 1, 1), (64, 32, 1)]);
    assert_eq!(stages[0].bindings, vec![bind(GRAVITY, 0, POS), bind(GRAVITY, 1, ACC)]);
    assert_eq!(
        stages[1].bindings,
        vec![bind(INTEGRATE, 4, POS), bind(INTEGRATE, 5, VEL), bind(INTEGRATE, 6, ACC)]
    );
    assert_eq!(stages[2].bindings.len(), 2);
    assert_eq!(stages[3].bindings.len(), 1);

    let programs: Vec<u32> = headless(9).stages().iter().map(|s| s.program).collect();
    assert_eq!(programs, vec![GRAVITY, INTEGRATE]);
}

#[test]
fn step_is_the_schedule_of_the_stages() {
    let with_mass =
        Pipeline::new(gravity_with_mass(), integrate_program(), weighted(masses(MASS, 4)), None)
            .unwrap();
    for mut p in [headless(5), interactive(5), with_mass] {
        let scheduled = commands_of(&p.stages());
        assert_eq!(p.step(), Ok(scheduled));
    }
}

#[test]
fn schedule_of_any_stages() {
    assert_eq!(commands_of(&vec![]), vec![]);
    let a = Stage { program: 7, bindings: vec![], grid: (1, 2, 3) };
    let b = Stage { program: 8, bindings: vec![bind(8, 0, 40), bind(8, 1, 41)], grid: (4, 1, 1) };
    let mut out = vec![Command::MemoryBarrier];
    b.emit(&mut out);
    assert_eq!(
        out,
        vec![
            Command::MemoryBarrier,
            bind(8, 0, 40),
            bind(8, 1, 41),
            Command::UseProgram { program: 8 },
            Command::DispatchCompute { x: 4, y: 1, z: 1 },
            Command::MemoryBarrier,
        ]
    );
    assert_eq!(
        commands_of(&vec![a, b]),
        vec![
            Command::UseProgram { program: 7 },
            Command::DispatchCompute { x: 1, y: 2, z: 3 },
            Command::MemoryBarrier,
            bind(8, 0, 40),
            bind(8, 1, 41),
            Command::UseProgram { program: 8 },
            Command::DispatchCompute { x: 4, y: 1, z: 1 },
            Command::MemoryBarrier,
        ]
    );
}
