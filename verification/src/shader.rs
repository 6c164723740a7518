//! Shader code as the graphics device takes it: a stream of 32-bit words
//! that starts with the SPIR-V magic number.

use vstd::prelude::*;
use crate::vulkan::Vulkan;

verus! {

/// The first word of every SPIR-V module.
pub const SPIRV_MAGIC: u32 = 0x0723_0203;

/// `std::io::Error`, as handed back by the reader of shader code.
#[verifier::external_type_specification]
#[verifier::external_body]
pub struct ExIoError(std::io::Error);

/// Word `i` of `bytes`, lowest byte first.
pub open spec fn word_le(bytes: Seq<u8>, i: int) -> u32 {
    (bytes[4 * i] as u32) | (bytes[4 * i + 1] as u32) << 8 | (bytes[4 * i + 2] as u32) << 16 | (
    bytes[4 * i + 3] as u32) << 24
}

/// Word `i` of `bytes`, highest byte first.
pub open spec fn word_be(bytes: Seq<u8>, i: int) -> u32 {
    (bytes[4 * i] as u32) << 24 | (bytes[4 * i + 1] as u32) << 16 | (bytes[4 * i + 2] as u32) << 8
        | (bytes[4 * i + 3] as u32)
}

/// Whether `bytes` is made of whole words.
pub open spec fn whole_words(bytes: Seq<u8>) -> bool {
    bytes.len() % 4 == 0
}

/// Whether `bytes` starts with the magic number, in either byte order.
pub open spec fn has_magic(bytes: Seq<u8>) -> bool {
    bytes.len() >= 4 && (word_le(bytes, 0) == SPIRV_MAGIC || word_be(bytes, 0) == SPIRV_MAGIC)
}

/// The words of `bytes`, read in the byte order in which the first word is
/// the magic number.
pub open spec fn spirv_words(bytes: Seq<u8>) -> Seq<u32> {
    Seq::new(
        (bytes.len() / 4) as nat,
        |i: int|
            if word_le(bytes, 0) == SPIRV_MAGIC {
                word_le(bytes, i)
            } else {
                word_be(bytes, i)
            },
    )
}

/// Why bytes are not shader code.
#[derive(Clone, Copy, Debug, PartialEq, Eq, Structural)]
pub enum ShaderError {
    /// The length is not a multiple of four.
    Misaligned,
    /// The first word is not the magic number in either byte order.
    MissingMagic,
}

/// Shader code, checked and in the byte order of this machine.
#[derive(Debug)]
pub struct ShaderModule {
    words: Vec<u32>,
}

impl View for ShaderModule {
    type V = Seq<u32>;

    closed spec fn view(&self) -> Seq<u32> {
        self.words@
    }
}

impl ShaderModule {
    /// The words of the module, the magic number first.
    pub fn words(&self) -> (w: &[u32])
        ensures
            w@ == self@,
    {
        self.words.as_slice()
    }
}

/// `ash::util::read_spv`, applied to a cursor over `bytes`. It succeeds
/// exactly on whole words that start with the magic number in either byte
/// order, and then returns the words in the order in which the first one is
/// the magic number.
#[verifier::external_body]
fn read_spv(bytes: &[u8]) -> (r: Result<Vec<u32>, std::io::Error>)
    ensures
        (r is Ok) == (whole_words(bytes@) && has_magic(bytes@)),
        r matches Ok(words) ==> words@ == spirv_words(bytes@),
{
    ash::util::read_spv(&mut std::io::Cursor::new(bytes))
}

impl Vulkan {
    /// Checks `code` and turns it into the words of a shader module.
    pub fn create_shader_module(code: &[u8]) -> (r: Result<ShaderModule, ShaderError>)
        ensures
            !whole_words(code@) ==> r == Err::<ShaderModule, ShaderError>(ShaderError::Misaligned),
            whole_words(code@) && !has_magic(code@) ==> r == Err::<ShaderModule, ShaderError>(
                ShaderError::MissingMagic,
            ),
            whole_words(code@) && has_magic(code@) ==> r is Ok && r->Ok_0@ == spirv_words(code@)
                && r->Ok_0@.len() * 4 == code@.len() && r->Ok_0@[0] == SPIRV_MAGIC,
    {
        match read_spv(code) {
            Ok(words) => Ok(ShaderModule { words }),
            Err(_) => {
                if code.len() % 4 != 0 {
                    Err(ShaderError::Misaligned)
                } else {
                    Err(ShaderError::MissingMagic)
                }
            },
        }
    }
}

} // verus!
