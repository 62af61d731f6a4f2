use vstd::prelude::*;
use crate::constants::le_bytes;

verus! {

/// The first word of every SPIR-V module.
pub const SPIRV_MAGIC: u32 = 0x0723_0203;

/// Whether `code` has the shape of a SPIR-V module: whole 32-bit words, the
/// first of which is the magic number, stored least significant byte first.
pub open spec fn spirv_shaped(code: Seq<u8>) -> bool {
    &&& code.len() >= 4
    &&& code.len() % 4 == 0
    &&& code.take(4) == le_bytes(SPIRV_MAGIC)
}

/// The compiled binary form of the render programs, with the names of the
/// vertex and fragment entry points. Never changed after it is made.
#[derive(Debug, PartialEq, Eq)]
pub struct CompiledArtifact {
    pub code: Vec<u8>,
    pub vertex_entry: String,
    pub fragment_entry: String,
}

impl CompiledArtifact {
    pub fn new(code: Vec<u8>, vertex_entry: String, fragment_entry: String) -> (r: Self)
        ensures
            r.code == code,
            r.vertex_entry == vertex_entry,
            r.fragment_entry == fragment_entry,
    {
        CompiledArtifact { code, vertex_entry, fragment_entry }
    }

    /// Number of bytes of compiled code.
    pub fn size(&self) -> (r: usize)
        ensures
            r == self.code@.len(),
    {
        self.code.len()
    }

    /// Whether the code can be handed to the device as a SPIR-V module; a
    /// pipeline is never built from code that fails this.
    pub fn is_spirv_module(&self) -> (r: bool)
        ensures
            r == spirv_shaped(self.code@),
    {
        let n = self.code.len();
        if n < 4 || n % 4 != 0 {
            return false;
        }
        let ok = self.code[0] == 0x03 && self.code[1] == 0x02 && self.code[2] == 0x23 && self.code[3]
            == 0x07;
        proof {
            let head = self.code@.take(4);
            assert(le_bytes(SPIRV_MAGIC) == seq![0x03u8, 0x02u8, 0x23u8, 0x07u8]);
            if ok {
                assert(head =~= seq![0x03u8, 0x02u8, 0x23u8, 0x07u8]);
            } else {
                assert(head[0] != 0x03 || head[1] != 0x02 || head[2] != 0x23 || head[3] != 0x07);
            }
        }
        ok
    }
}

/// What one run of the compiler produced.
#[derive(Debug, PartialEq, Eq)]
pub enum BuildOutcome {
    Success(CompiledArtifact),
    Failure(String),
}

} // verus!
