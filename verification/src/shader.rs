//! The handle by which the renderer names a linked GPU program.

use vstd::prelude::*;

verus! {

/// A linked GPU program, known by the identifier the graphics driver gave it.
#[derive(Debug)]
pub struct Shader {
    program_id: u32,
}

impl Shader {
    /// The identifier of the program.
    pub closed spec fn id(&self) -> u32 {
        self.program_id
    }

    /// The handle of the program that the driver linked under `program_id`.
    pub fn from_program_id(program_id: u32) -> (r: Shader)
        ensures
            r.id() == program_id,
    {
        Shader { program_id }
    }

    /// The identifier to hand back to the driver.
    pub fn program_id(&self) -> (r: u32)
        ensures
            r == self.id(),
    {
        self.program_id
    }
}

} // verus!
