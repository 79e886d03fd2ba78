//! Image loader: parses a binary program image — a big-endian stream of
//! 16-bit words — into an origin address and a full memory array. The first
//! word is the origin (zero stands for the default origin 0x3000); every
//! following word is placed in memory from the origin on, in order.

use vstd::prelude::*;

use crate::bits::get_as_u16;
use crate::machine::{MEM_SIZE, PRGM_START_ADDR};

verus! {

/// Why a program image was rejected. A partially loaded image never reaches
/// the machine: the loader fails before any instruction executes.
#[derive(Clone, Copy, Debug, PartialEq, Eq, Structural)]
pub enum LoadError {
    /// Fewer than two bytes were available for the origin word.
    TruncatedOrigin,
    /// A single trailing byte remained where a body word was expected.
    TruncatedWord,
    /// The body would run past the top of memory at address 65,535.
    ImageTooLarge,
}

/// The `i`-th 16-bit big-endian word of the byte stream.
pub open spec fn image_word(bytes: Seq<u8>, i: int) -> u16
    recommends
        0 <= i,
        2 * i + 1 < bytes.len(),
{
    (bytes[2 * i] * 256 + bytes[2 * i + 1]) as u16
}

/// Number of body words following the origin word.
pub open spec fn body_len(bytes: Seq<u8>) -> int {
    (bytes.len() - 2) / 2
}

/// The origin address of the image: its first word, or the default origin
/// when that word is zero.
pub open spec fn spec_origin(bytes: Seq<u8>) -> u16 {
    if image_word(bytes, 0) == 0 {
        PRGM_START_ADDR
    } else {
        image_word(bytes, 0)
    }
}

/// Whether the byte stream is a loadable image: it holds an origin word, it
/// splits evenly into 16-bit words, and the body fits below the top of
/// memory.
pub open spec fn image_ok(bytes: Seq<u8>) -> bool {
    &&& bytes.len() >= 2
    &&& bytes.len() % 2 == 0
    &&& spec_origin(bytes) + body_len(bytes) <= MEM_SIZE
}

/// Parses a binary program image into its origin address and a full memory
/// array: the body words stand from the origin on and every other address
/// holds zero. Rejects a stream too short for the origin word, a stream with
/// a trailing odd byte, and a body that would run past the top of memory.
pub fn load_image(bytes: &[u8]) -> (r: Result<(u16, Vec<u16>), LoadError>)
    ensures
        r is Ok <==> image_ok(bytes@),
        bytes@.len() < 2 ==> r == Err::<(u16, Vec<u16>), LoadError>(LoadError::TruncatedOrigin),
        bytes@.len() >= 2 && bytes@.len() % 2 != 0 ==> r == Err::<(u16, Vec<u16>), LoadError>(
            LoadError::TruncatedWord,
        ),
        bytes@.len() >= 2 && bytes@.len() % 2 == 0 && spec_origin(bytes@) + body_len(bytes@)
            > MEM_SIZE ==> r == Err::<(u16, Vec<u16>), LoadError>(LoadError::ImageTooLarge),
        r matches Ok((origin, mem)) ==> {
            &&& origin == spec_origin(bytes@)
            &&& mem@.len() == MEM_SIZE
            &&& forall|a: int|
                origin <= a < origin + body_len(bytes@) ==> #[trigger] mem@[a] == image_word(
                    bytes@,
                    a - origin + 1,
                )
            &&& forall|a: int|
                0 <= a < MEM_SIZE && !(origin <= a < origin + body_len(bytes@))
                    ==> #[trigger] mem@[a] == 0
        },
{
    if bytes.len() < 2 {
        return Err(LoadError::TruncatedOrigin);
    }
    if bytes.len() % 2 != 0 {
        return Err(LoadError::TruncatedWord);
    }

    let origin_word = get_as_u16(bytes[0], bytes[1]);
    let origin: u16 = if origin_word == 0 {
        PRGM_START_ADDR
    } else {
        origin_word
    };
    let n_words: usize = (bytes.len() - 2) / 2;
    if n_words > MEM_SIZE - origin as usize {
        return Err(LoadError::ImageTooLarge);
    }

    let mut memory: Vec<u16> = Vec::new();
    while memory.len() < MEM_SIZE
        invariant
            memory@.len() <= MEM_SIZE,
            forall|a: int| 0 <= a < memory@.len() ==> memory@[a] == 0,
        decreases MEM_SIZE - memory.len(),
    {
        memory.push(0);
    }

    let mut i: usize = 0;
    while i < n_words
        invariant
            i <= n_words,
            n_words == body_len(bytes@),
            bytes@.len() >= 2,
            bytes@.len() % 2 == 0,
            origin == spec_origin(bytes@),
            origin + n_words <= MEM_SIZE,
            memory@.len() == MEM_SIZE,
            forall|a: int|
                origin <= a < origin + i ==> #[trigger] memory@[a] == image_word(
                    bytes@,
                    a - origin + 1,
                ),
            forall|a: int|
                0 <= a < MEM_SIZE && !(origin <= a < origin + i) ==> #[trigger] memory@[a] == 0,
        decreases n_words - i,
    {
        let w = get_as_u16(bytes[2 + 2 * i], bytes[3 + 2 * i]);
        memory[origin as usize + i] = w;
        i = i + 1;
    }

    Ok((origin, memory))
}

} // verus!
