//! Shader binaries.

use vstd::prelude::*;

use crate::bytes::collect_words;

verus! {

/// The word that a SPIR-V binary starts with.
pub const SPIRV_MAGIC: u32 = 0x0723_0203;

/// Why bytes are no SPIR-V binary.
#[derive(Clone, Copy, Debug, PartialEq, Eq, Structural)]
pub enum SpirvError {
    /// There are no bytes.
    Empty,
    /// The bytes, so many of them, are not whole words.
    Length(usize),
    /// The first word is another one.
    Magic(u32),
}

/// Takes words for a SPIR-V binary if they start like one.
pub fn check_spirv(words: Vec<u32>) -> (module: Result<Vec<u32>, SpirvError>)
    ensures
        match module {
            Ok(checked) => words@.len() > 0 && words@[0] == SPIRV_MAGIC && checked@ == words@,
            Err(SpirvError::Empty) => words@.len() == 0,
            Err(SpirvError::Magic(word)) => words@.len() > 0 && word == words@[0] && word
                != SPIRV_MAGIC,
            Err(SpirvError::Length(_)) => false,
        },
        module is Ok <==> words@.len() > 0 && words@[0] == 0x0723_0203,
{
    if words.len() == 0 {
        Err(SpirvError::Empty)
    } else if words[0] != SPIRV_MAGIC {
        Err(SpirvError::Magic(words[0]))
    } else {
        Ok(words)
    }
}

/// Takes bytes for a SPIR-V binary, in the byte order of the machine.
pub fn make_spirv(data: &[u8]) -> (module: Result<Vec<u32>, SpirvError>)
    ensures
        match module {
            Ok(words) => {
                &&& data@.len() % 4 == 0
                &&& words@.len() > 0
                &&& words@[0] == SPIRV_MAGIC
                &&& crate::bytes::is_image(data@, words@)
            },
            Err(SpirvError::Empty) => data@.len() == 0,
            Err(SpirvError::Length(length)) => length == data@.len() && length % 4 != 0,
            Err(SpirvError::Magic(word)) => {
                &&& data@.len() % 4 == 0
                &&& data@.len() > 0
                &&& word != SPIRV_MAGIC
                &&& exists|words: Seq<u32>| #[trigger]
                    crate::bytes::is_image(data@, words) && words[0] == word
            },
        },
        module is Ok <==> data@.len() > 0 && data@.len() % 4 == 0 && crate::bytes::bytes_word(
            crate::bytes::machine_order(),
            data@.subrange(0, 4),
        ) == 0x0723_0203,
        module matches Ok(words) ==> words@ == crate::bytes::bytes_to_words(
            crate::bytes::machine_order(),
            data@,
        ),
        module matches Err(SpirvError::Magic(word)) ==> word == crate::bytes::bytes_word(
            crate::bytes::machine_order(),
            data@.subrange(0, 4),
        ),
{
    if data.len() % 4 != 0 {
        return Err(SpirvError::Length(data.len()));
    }
    let words = collect_words(data);
    proof {
        let order = crate::bytes::machine_order();
        crate::bytes::law_words_round_trip(order, words@);
        assert(words@ == crate::bytes::bytes_to_words(order, data@));
    }
    check_spirv(words)
}

} // verus!
