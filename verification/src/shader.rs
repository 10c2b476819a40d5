//! Decoding compiled shader modules from raw bytes.
//!
//! A module is a sequence of 32-bit words whose first word is a fixed magic
//! number. The bytes carry the words in either byte order; the magic word
//! says which, and the decoder folds everything to the canonical order.

use vstd::prelude::*;

verus! {

/// The magic number that opens every compiled shader module.
pub const SPIRV_MAGIC: u32 = 0x0723_0203;

/// The magic number as it reads when the bytes carry the opposite order.
pub const SPIRV_MAGIC_REVERSED: u32 = 0x0302_2307;

/// Why a byte blob is not a shader module.
#[derive(Debug, Clone, Copy, PartialEq, Eq, Structural)]
pub enum ShaderDecodeError {
    /// The length is not a multiple of four.
    NotWordAligned,
    /// The first word is not the magic number in either byte order.
    MissingMagic,
}

/// The word starting at byte `4 * i`, least significant byte first.
pub open spec fn word_at(s: Seq<u8>, i: int) -> u32 {
    (s[4 * i] + s[4 * i + 1] * 0x100 + s[4 * i + 2] * 0x1_0000 + s[4 * i + 3] * 0x100_0000) as u32
}

/// All words of `s`, least significant byte first.
pub open spec fn words_le(s: Seq<u8>) -> Seq<u32> {
    Seq::new((s.len() / 4) as nat, |i: int| word_at(s, i))
}

/// `w` with its four bytes in the opposite order.
pub open spec fn byte_swapped(w: u32) -> u32 {
    ((w % 0x100) * 0x100_0000 + ((w / 0x100) % 0x100) * 0x1_0000 + ((w / 0x1_0000) % 0x100) * 0x100
        + w / 0x100_0000) as u32
}

/// What a well-formed byte blob decodes to: its words, brought to the
/// canonical byte order by the magic word; `None` when it is no module.
pub open spec fn decoded_shader(s: Seq<u8>) -> Option<Seq<u32>> {
    if s.len() % 4 != 0 {
        None
    } else {
        let w = words_le(s);
        if w.len() > 0 && w[0] == SPIRV_MAGIC {
            Some(w)
        } else if w.len() > 0 && w[0] == SPIRV_MAGIC_REVERSED {
            Some(w.map_values(|x: u32| byte_swapped(x)))
        } else {
            None
        }
    }
}

/// Swap the four bytes of a word.
fn swap_word(w: u32) -> (r: u32)
    ensures
        r == byte_swapped(w),
{
    let b0 = w % 0x100;
    let b1 = (w / 0x100) % 0x100;
    let b2 = (w / 0x1_0000) % 0x100;
    let b3 = w / 0x100_0000;
    b0 * 0x100_0000 + b1 * 0x1_0000 + b2 * 0x100 + b3
}

/// Decode a compiled shader module from raw bytes: exactly the blobs whose
/// length is a whole number of words and whose first word is the magic
/// number in one of the two byte orders are accepted.
pub fn read_shader_from_bytes(bytes: &[u8]) -> (r: Result<Vec<u32>, ShaderDecodeError>)
    ensures
        r is Ok <==> decoded_shader(bytes@) is Some,
        r matches Ok(ws) ==> Some(ws@) == decoded_shader(bytes@),
        r matches Err(e) ==> e == (if bytes@.len() % 4 != 0 {
            ShaderDecodeError::NotWordAligned
        } else {
            ShaderDecodeError::MissingMagic
        }),
{
    let len = bytes.len();
    if len % 4 != 0 {
        return Err(ShaderDecodeError::NotWordAligned);
    }
    let n = len / 4;
    let mut result: Vec<u32> = Vec::new();
    let mut i: usize = 0;
    while i < n
        invariant
            len == bytes@.len(),
            len % 4 == 0,
            n == len / 4,
            i <= n,
            result@.len() == i,
            forall|j: int| 0 <= j < i ==> result@[j] == words_le(bytes@)[j],
        decreases n - i,
    {
        let b0 = bytes[4 * i] as u32;
        let b1 = bytes[4 * i + 1] as u32;
        let b2 = bytes[4 * i + 2] as u32;
        let b3 = bytes[4 * i + 3] as u32;
        let w = b0 + b1 * 0x100 + b2 * 0x1_0000 + b3 * 0x100_0000;
        proof {
            assert(words_le(bytes@)[i as int] == word_at(bytes@, i as int));
        }
        result.push(w);
        i = i + 1;
    }
    proof {
        assert(result@ =~= words_le(bytes@));
    }

    if n > 0 && result[0] == SPIRV_MAGIC_REVERSED {
        let mut k: usize = 0;
        while k < n
            invariant
                n == result@.len(),
                k <= n,
                forall|j: int|
                    0 <= j < k ==> result@[j] == byte_swapped(words_le(bytes@)[j]),
                forall|j: int| k <= j < n ==> result@[j] == words_le(bytes@)[j],
            decreases n - k,
        {
            let swapped = swap_word(result[k]);
            result.set(k, swapped);
            k = k + 1;
        }
        proof {
            assert(result@ =~= words_le(bytes@).map_values(|x: u32| byte_swapped(x)));
            assert(byte_swapped(SPIRV_MAGIC_REVERSED) == SPIRV_MAGIC);
        }
    }

    if n == 0 || result[0] != SPIRV_MAGIC {
        return Err(ShaderDecodeError::MissingMagic);
    }
    Ok(result)
}

} // verus!
