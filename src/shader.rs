//! Shader sources and the SPIR-V word streams that pipeline creation consumes.
use vstd::arithmetic::div_mod::lemma_fundamental_div_mod;
use vstd::prelude::*;

use crate::error::EngineError;

verus! {

/// First word of every SPIR-V module.
pub const SPIRV_MAGIC: u32 = 0x0723_0203;

/// The files holding the two shader stages.
pub struct ShaderSource {
    pub vertex_shader_file: String,
    pub fragment_shader_file: String,
}

/// The two stages as SPIR-V words.
pub struct CompiledShader {
    pub vertex: Vec<u32>,
    pub fragment: Vec<u32>,
}

/// The little-endian word at word index `i` of `b`.
pub open spec fn le_word(b: Seq<u8>, i: int) -> u32 {
    (b[4 * i] + 256 * b[4 * i + 1] + 65536 * b[4 * i + 2] + 16777216 * b[4 * i + 3]) as u32
}

/// `b` read as little-endian words.
pub open spec fn spirv_words(b: Seq<u8>) -> Seq<u32> {
    Seq::new(b.len() / 4, |i: int| le_word(b, i))
}

/// `b` is a whole number of words and starts with the SPIR-V magic number.
pub open spec fn is_spirv(b: Seq<u8>) -> bool {
    b.len() % 4 == 0 && b.len() >= 4 && le_word(b, 0) == SPIRV_MAGIC
}

/// The words of a SPIR-V binary; anything else is refused.
pub fn decode_spirv(code: &Vec<u8>) -> (r: Result<Vec<u32>, EngineError>)
    ensures
        is_spirv(code@) ==> (r matches Ok(w) && w@ == spirv_words(code@)),
        !is_spirv(code@) ==> r == Err::<Vec<u32>, EngineError>(EngineError::InvalidShaderCode),
{
    let len = code.len();
    if len % 4 != 0 || len < 4 {
        return Err(EngineError::InvalidShaderCode);
    }
    let mut words: Vec<u32> = Vec::new();
    let n = len / 4;
    proof {
        lemma_fundamental_div_mod(code@.len() as int, 4);
    }
    let mut i: usize = 0;
    while i < n
        invariant
            n == code@.len() / 4,
            code@.len() == 4 * n,
            len == code@.len(),
            i <= n,
            words@ =~= Seq::new(i as nat, |k: int| le_word(code@, k)),
        decreases n - i,
    {
        let b = 4 * i;
        let w = code[b] as u32 + 256 * (code[b + 1] as u32) + 65536 * (code[b + 2] as u32)
            + 16777216 * (code[b + 3] as u32);
        words.push(w);
        i = i + 1;
    }
    if words[0] != SPIRV_MAGIC {
        return Err(EngineError::InvalidShaderCode);
    }
    proof {
        assert(words@ =~= spirv_words(code@));
    }
    Ok(words)
}

impl ShaderSource {
    /// Takes the compiled binaries of the vertex and fragment stages, read from
    /// this source's files, and turns each into SPIR-V words.
    pub fn compile(&self, vertex_code: &Vec<u8>, fragment_code: &Vec<u8>) -> (r: Result<
        CompiledShader,
        EngineError,
    >)
        ensures
            is_spirv(vertex_code@) && is_spirv(fragment_code@) ==> (r matches Ok(c) && c.vertex@
                == spirv_words(vertex_code@) && c.fragment@ == spirv_words(fragment_code@)),
            !(is_spirv(vertex_code@) && is_spirv(fragment_code@)) ==> r == Err::<
                CompiledShader,
                EngineError,
            >(EngineError::InvalidShaderCode),
    {
        let vertex = match decode_spirv(vertex_code) {
            Ok(w) => w,
            Err(e) => {
                return Err(e);
            },
        };
        let fragment = match decode_spirv(fragment_code) {
            Ok(w) => w,
            Err(e) => {
                return Err(e);
            },
        };
        Ok(CompiledShader { vertex, fragment })
    }
}

} // verus!
