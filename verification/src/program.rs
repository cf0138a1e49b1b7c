//! A linked device program: what kind it is, where its storage blocks are
//! bound, and the commands that run it.

use vstd::prelude::*;
use crate::binding::BindingTable;
use crate::buffer::Buffer;
use crate::command::Command;

verus! {

/// The stage that one shader of a program runs in.
#[derive(Clone, Copy, Debug, PartialEq, Eq, Structural)]
pub enum StageKind {
    Vertex,
    Fragment,
    Compute,
}

/// What a program can be used for.
#[derive(Clone, Copy, Debug, PartialEq, Eq, Structural)]
pub enum ProgramKind {
    /// A vertex and a fragment stage: draws.
    Draw,
    /// A single compute stage: is dispatched.
    Compute,
}

/// Why a program operation was turned down.
#[derive(Clone, Copy, Debug, PartialEq, Eq, Structural)]
pub enum ProgramError {
    /// The stages are neither one vertex and one fragment stage nor a
    /// single compute stage.
    BadStages,
    /// A dispatch of a program that has no compute stage.
    NotCompute,
    /// A draw with a compute program.
    NotDraw,
    /// The program has no storage block bound at that index.
    UnknownBlock,
    /// The buffer has no store yet.
    NoStore,
    /// The program has no uniform of that name.
    UnknownUniform,
}

/// The kind of program that a list of stages links to, if it links to one.
pub open spec fn kind_of(stages: Seq<StageKind>) -> Option<ProgramKind> {
    if stages.len() == 1 && stages[0] == StageKind::Compute {
        Some(ProgramKind::Compute)
    } else if stages.len() == 2 && (stages[0] == StageKind::Vertex && stages[1]
        == StageKind::Fragment || stages[0] == StageKind::Fragment && stages[1]
        == StageKind::Vertex) {
        Some(ProgramKind::Draw)
    } else {
        None
    }
}

/// The commands of one dispatch: make the program current, launch the grid,
/// and close with a full barrier.
pub open spec fn dispatch_commands(program: u32, x: u32, y: u32, z: u32) -> Seq<Command> {
    seq![
        Command::UseProgram { program },
        Command::DispatchCompute { x, y, z },
        Command::MemoryBarrier,
    ]
}

/// A linked program with the tables that were resolved for it once, after
/// linking: storage block name to binding point, and uniform name to location.
#[derive(Debug)]
pub struct Program {
    handle: u32,
    kind: ProgramKind,
    blocks: BindingTable,
    uniforms: BindingTable,
}

impl Program {
    pub closed spec fn spec_handle(&self) -> u32 {
        self.handle
    }

    pub closed spec fn spec_kind(&self) -> ProgramKind {
        self.kind
    }

    /// The binding table: block name to binding point.
    pub closed spec fn spec_blocks(&self) -> Map<Seq<char>, u32> {
        self.blocks@
    }

    /// The uniform table: uniform name to location.
    pub closed spec fn spec_uniforms(&self) -> Map<Seq<char>, u32> {
        self.uniforms@
    }

    /// What `storage_block_index` returns for `name`.
    pub open spec fn spec_block_index(&self, name: Seq<char>) -> Option<u32> {
        if self.spec_blocks().dom().contains(name) {
            Some(self.spec_blocks()[name])
        } else {
            None
        }
    }

    /// The reason for which `bind_storage_buffer` turns a binding down, if
    /// there is one.
    pub open spec fn bind_error(&self, buffer: &Buffer, block: u32) -> Option<ProgramError> {
        if !self.spec_blocks().contains_value(block) {
            Some(ProgramError::UnknownBlock)
        } else if buffer.spec_element() is None {
            Some(ProgramError::NoStore)
        } else {
            None
        }
    }

    /// Describes the program that the device linked from `stages` under
    /// `handle`, with the tables that reflection gave for it.
    pub fn create(
        handle: u32,
        stages: &[StageKind],
        blocks: BindingTable,
        uniforms: BindingTable,
    ) -> (r: Result<Program, ProgramError>)
        ensures
            match r {
                Ok(p) => {
                    &&& kind_of(stages@) == Some(p.spec_kind())
                    &&& p.spec_handle() == handle
                    &&& p.spec_blocks() == blocks@
                    &&& p.spec_uniforms() == uniforms@
                },
                Err(e) => e == ProgramError::BadStages && kind_of(stages@) is None,
            },
    {
        let kind = if stages.len() == 1 {
            match stages[0] {
                StageKind::Compute => ProgramKind::Compute,
                _ => {
                    return Err(ProgramError::BadStages);
                },
            }
        } else if stages.len() == 2 {
            match (stages[0], stages[1]) {
                (StageKind::Vertex, StageKind::Fragment) | (StageKind::Fragment, StageKind::Vertex) => {
                    ProgramKind::Draw
                },
                _ => {
                    return Err(ProgramError::BadStages);
                },
            }
        } else {
            return Err(ProgramError::BadStages);
        };
        Ok(Program { handle, kind, blocks, uniforms })
    }

    pub fn handle(&self) -> (h: u32)
        ensures
            h == self.spec_handle(),
    {
        self.handle
    }

    pub fn kind(&self) -> (k: ProgramKind)
        ensures
            k == self.spec_kind(),
    {
        self.kind
    }

    /// The index of the storage block called `name`, which is also the
    /// binding point it is routed to; `None` if the program has no such block.
    /// The answer is the same for the program's whole life.
    pub fn storage_block_index(&self, name: &String) -> (r: Option<u32>)
        ensures
            r == self.spec_block_index(name@),
            BindingTable::injective(self.spec_blocks()),
    {
        self.blocks.resolve(name)
    }

    /// The command that binds `buffer` to the storage block `block_index`
    /// through `binding_point`, for the dispatches that follow.
    pub fn bind_storage_buffer(&self, buffer: &Buffer, block_index: u32, binding_point: u32) -> (r:
        Result<Command, ProgramError>)
        ensures
            match r {
                Ok(c) => {
                    &&& self.bind_error(buffer, block_index) is None
                    &&& c == (Command::BindStorageBuffer {
                        program: self.spec_handle(),
                        block: block_index,
                        point: binding_point,
                        buffer: buffer.spec_handle(),
                    })
                },
                Err(e) => self.bind_error(buffer, block_index) == Some(e),
            },
    {
        if !self.blocks.uses_point(block_index) {
            return Err(ProgramError::UnknownBlock);
        }
        if buffer.element().is_none() {
            return Err(ProgramError::NoStore);
        }
        Ok(
            Command::BindStorageBuffer {
                program: self.handle,
                block: block_index,
                point: binding_point,
                buffer: buffer.handle(),
            },
        )
    }

    /// The commands that launch the compute kernel over a grid of `x` by `y`
    /// by `z` workgroups and make all its writes visible to what follows.
    /// Only a compute program can be dispatched.
    pub fn dispatch_and_sync(&self, x: u32, y: u32, z: u32) -> (r: Result<
        Vec<Command>,
        ProgramError,
    >)
        ensures
            match r {
                Ok(cs) => {
                    &&& self.spec_kind() == ProgramKind::Compute
                    &&& cs@ == dispatch_commands(self.spec_handle(), x, y, z)
                },
                Err(e) => e == ProgramError::NotCompute && self.spec_kind() != ProgramKind::Compute,
            },
    {
        match self.kind {
            ProgramKind::Compute => {},
            ProgramKind::Draw => {
                return Err(ProgramError::NotCompute);
            },
        }
        let mut cs: Vec<Command> = Vec::new();
        cs.push(Command::UseProgram { program: self.handle });
        cs.push(Command::DispatchCompute { x, y, z });
        cs.push(Command::MemoryBarrier);
        proof {
            assert(cs@ =~= dispatch_commands(self.spec_handle(), x, y, z));
        }
        Ok(cs)
    }

    /// The command that makes a draw program current for rasterization.
    pub fn use_for_draw(&self) -> (r: Result<Command, ProgramError>)
        ensures
            match r {
                Ok(c) => {
                    &&& self.spec_kind() == ProgramKind::Draw
                    &&& c == (Command::UseProgram { program: self.spec_handle() })
                },
                Err(e) => e == ProgramError::NotDraw && self.spec_kind() != ProgramKind::Draw,
            },
    {
        match self.kind {
            ProgramKind::Draw => Ok(Command::UseProgram { program: self.handle }),
            ProgramKind::Compute => Err(ProgramError::NotDraw),
        }
    }

    /// Gives the program up: the result is the one command that releases it.
    pub fn release(self) -> (c: Command)
        ensures
            c == (Command::DeleteProgram { program: self.spec_handle() }),
    {
        Command::DeleteProgram { program: self.handle }
    }

    /// The command that sets the integer pair uniform called `name`.
    pub fn set_uniform_2i(&self, name: &String, first: i32, second: i32) -> (r: Result<
        Command,
        ProgramError,
    >)
        ensures
            match r {
                Ok(c) => {
                    &&& self.spec_uniforms().dom().contains(name@)
                    &&& c == (Command::Uniform2i {
                        program: self.spec_handle(),
                        location: self.spec_uniforms()[name@],
                        first,
                        second,
                    })
                },
                Err(e) => {
                    &&& e == ProgramError::UnknownUniform
                    &&& !self.spec_uniforms().dom().contains(name@)
                },
            },
    {
        match self.uniforms.resolve(name) {
            Some(location) => Ok(
                Command::Uniform2i { program: self.handle, location, first, second },
            ),
            None => Err(ProgramError::UnknownUniform),
        }
    }

    /// The command that sets the float uniform called `name` to the value
    /// whose bit pattern is `bits`.
    pub fn set_uniform_1f(&self, name: &String, bits: u32) -> (r: Result<Command, ProgramError>)
        ensures
            match r {
                Ok(c) => {
                    &&& self.spec_uniforms().dom().contains(name@)
                    &&& c == (Command::Uniform1f {
                        program: self.spec_handle(),
                        location: self.spec_uniforms()[name@],
                        bits,
                    })
                },
                Err(e) => {
                    &&& e == ProgramError::UnknownUniform
                    &&& !self.spec_uniforms().dom().contains(name@)
                },
            },
    {
        match self.uniforms.resolve(name) {
            Some(location) => Ok(Command::Uniform1f { program: self.handle, location, bits }),
            None => Err(ProgramError::UnknownUniform),
        }
    }
}

} // verus!
