//! Turning SPIR-V shader binaries into the 32-bit words that shader modules
//! are created from.

use vstd::prelude::*;

verus! {

/// The first word of every SPIR-V module.
pub const SPIRV_MAGIC_NUMBER: u32 = 0x0723_0203;

#[verifier::external_type_specification]
#[verifier::external_body]
pub struct ExIoError(std::io::Error);

#[verifier::external_type_specification]
#[verifier::external_body]
pub struct ExSpirvBytesNotMultipleOf4(vulkano::shader::spirv::SpirvBytesNotMultipleOf4);

/// Word `i` of `b`, its four bytes read least significant first.
pub open spec fn le_word(b: Seq<u8>, i: int) -> int {
    b[4 * i] + b[4 * i + 1] * 0x100 + b[4 * i + 2] * 0x1_0000 + b[4 * i + 3] * 0x100_0000
}

/// Word `i` of `b`, its four bytes read most significant first.
pub open spec fn be_word(b: Seq<u8>, i: int) -> int {
    b[4 * i + 3] + b[4 * i + 2] * 0x100 + b[4 * i + 1] * 0x1_0000 + b[4 * i] * 0x100_0000
}

/// All complete words of `b`, little-endian.
pub open spec fn le_words(b: Seq<u8>) -> Seq<u32> {
    Seq::new(b.len() / 4, |i: int| le_word(b, i) as u32)
}

/// All complete words of `b`, big-endian.
pub open spec fn be_words(b: Seq<u8>) -> Seq<u32> {
    Seq::new(b.len() / 4, |i: int| be_word(b, i) as u32)
}

/// The words of a SPIR-V binary: the length must be a non-zero multiple of
/// four and the first word, read in either byte order, the magic number;
/// the whole module is then read in that byte order.
pub open spec fn spirv_from_bytes(b: Seq<u8>) -> Option<Seq<u32>> {
    if b.len() % 4 != 0 || b.len() == 0 {
        None
    } else if le_word(b, 0) == SPIRV_MAGIC_NUMBER {
        Some(le_words(b))
    } else if be_word(b, 0) == SPIRV_MAGIC_NUMBER {
        Some(be_words(b))
    } else {
        None
    }
}

/// `ash::util::read_spv` over an in-memory cursor. Its source seeks to the
/// end for the length, fails unless it is a multiple of four, reads the
/// words in host byte order, swaps every word when the first one is the
/// byte-swapped magic number, and fails unless the first word is then the
/// magic number. Over both host byte orders that is `spirv_from_bytes`.
/// Nothing is stated of the error value.
#[verifier::external_body]
fn ash_read_spv(bytes: &[u8]) -> (r: Result<Vec<u32>, std::io::Error>)
    ensures
        match r {
            Ok(words) => spirv_from_bytes(bytes@) == Some(words@),
            Err(_) => spirv_from_bytes(bytes@) is None,
        },
{
    ash::util::read_spv(&mut std::io::Cursor::new(bytes))
}

/// `vulkano::shader::spirv::bytes_to_words`: fails when the length is not a
/// multiple of four, and otherwise reads every word little-endian (the
/// borrowed result is copied into a `Vec`).
#[verifier::external_body]
fn vulkano_bytes_to_words(bytes: &[u8]) -> (r: Result<
    Vec<u32>,
    vulkano::shader::spirv::SpirvBytesNotMultipleOf4,
>)
    ensures
        match r {
            Ok(words) => bytes@.len() % 4 == 0 && words@ == le_words(bytes@),
            Err(_) => bytes@.len() % 4 != 0,
        },
{
    vulkano::shader::spirv::bytes_to_words(bytes).map(|words| words.into_owned())
}

/// `u32::from_ne_bytes`: the word in the byte order of the machine, which is
/// little- or big-endian; which one is not stated.
#[verifier::external_body]
fn u32_from_ne_bytes(bytes: [u8; 4]) -> (r: u32)
    ensures
        r as int == le_word(bytes@, 0) || r as int == be_word(bytes@, 0),
{
    u32::from_ne_bytes(bytes)
}

/// Why a byte string is not a SPIR-V binary.
#[derive(Clone, Copy, Debug, PartialEq, Eq)]
pub enum SpirvError {
    /// The length is not a multiple of four bytes.
    LengthNotMultipleOf4,
    /// The first word is not the SPIR-V magic number in either byte order
    /// (or there is no first word).
    MissingMagicNumber,
}

proof fn lemma_word_bounds(b: Seq<u8>, i: int)
    requires
        0 <= i,
        4 * i + 3 < b.len(),
    ensures
        0 <= le_word(b, i) <= u32::MAX,
        0 <= be_word(b, i) <= u32::MAX,
{
}

/// Reads a SPIR-V binary (either byte order) into words, as
/// `ash::util::read_spv` does; the first word of the result is the magic
/// number.
pub fn load_spirv(bytes: &[u8]) -> (r: Result<Vec<u32>, SpirvError>)
    ensures
        match r {
            Ok(words) => {
                &&& spirv_from_bytes(bytes@) == Some(words@)
                &&& words@.len() * 4 == bytes@.len()
                &&& words@.len() > 0
                &&& words@[0] == SPIRV_MAGIC_NUMBER
            },
            Err(e) => {
                &&& spirv_from_bytes(bytes@) is None
                &&& (e == SpirvError::LengthNotMultipleOf4) == (bytes@.len() % 4 != 0)
            },
        },
{
    match ash_read_spv(bytes) {
        Ok(words) => {
            proof {
                lemma_word_bounds(bytes@, 0);
            }
            Ok(words)
        },
        Err(_) => {
            if bytes.len() % 4 != 0 {
                Err(SpirvError::LengthNotMultipleOf4)
            } else {
                Err(SpirvError::MissingMagicNumber)
            }
        },
    }
}

/// Converts little-endian SPIR-V bytes to words, as
/// `vulkano::shader::spirv::bytes_to_words` does; no magic number is checked.
pub fn spirv_bytes_to_words(bytes: &[u8]) -> (r: Result<Vec<u32>, SpirvError>)
    ensures
        match r {
            Ok(words) => bytes@.len() % 4 == 0 && words@ == le_words(bytes@),
            Err(e) => bytes@.len() % 4 != 0 && e == SpirvError::LengthNotMultipleOf4,
        },
{
    match vulkano_bytes_to_words(bytes) {
        Ok(words) => Ok(words),
        Err(_) => Err(SpirvError::LengthNotMultipleOf4),
    }
}

/// The word whose bytes, least significant first, are `b0`, `b1`, `b2`,
/// `b3`.
fn compose_word(b0: u8, b1: u8, b2: u8, b3: u8) -> (w: u32)
    ensures
        w as int == b0 + b1 * 0x100 + b2 * 0x1_0000 + b3 * 0x100_0000,
{
    (b0 as u32) + (b1 as u32) * 0x100 + (b2 as u32) * 0x1_0000 + (b3 as u32) * 0x100_0000
}

/// Every word of `words` is the word of `bytes` at the same index, read in
/// one and the same byte order (little-endian for all, or big-endian for
/// all).
pub open spec fn words_in_one_byte_order(bytes: Seq<u8>, words: Seq<u32>) -> bool {
    ||| forall|i: int| 0 <= i < words.len() ==> #[trigger] words[i] as int == le_word(bytes, i)
    ||| forall|i: int| 0 <= i < words.len() ==> #[trigger] words[i] as int == be_word(bytes, i)
}

/// Reinterprets the bytes as words in the machine's byte order; trailing
/// bytes that do not fill a word are ignored. The machine's byte order is
/// what `u32::from_ne_bytes` makes of the bytes 1, 0, 0, 0; every word is
/// read in that one order.
pub fn spirv_words_native(bytes: &[u8]) -> (words: Vec<u32>)
    ensures
        words@.len() == bytes@.len() / 4,
        forall|i: int|
            0 <= i < words@.len() ==> #[trigger] words@[i] as int == le_word(bytes@, i)
                || words@[i] as int == be_word(bytes@, i),
        (forall|i: int|
            0 <= i < words@.len() ==> #[trigger] words@[i] as int == le_word(bytes@, i)) || (
        forall|i: int| 0 <= i < words@.len() ==> #[trigger] words@[i] as int == be_word(bytes@, i)),
{
    let probe = u32_from_ne_bytes([1u8, 0u8, 0u8, 0u8]);
    let little = probe == 1;
    let count = bytes.len() / 4;
    let mut words: Vec<u32> = Vec::new();
    let mut i: usize = 0;
    while i < count
        invariant
            count == bytes@.len() / 4,
            count == bytes.len() / 4,
            i <= count,
            words@.len() == i,
            forall|k: int|
                0 <= k < i ==> #[trigger] words@[k] as int == (if little {
                    le_word(bytes@, k)
                } else {
                    be_word(bytes@, k)
                }),
        decreases count - i,
    {
        assert(4 * i + 4 <= bytes.len());
        let off = 4 * i;
        let w = if little {
            compose_word(bytes[off], bytes[off + 1], bytes[off + 2], bytes[off + 3])
        } else {
            compose_word(bytes[off + 3], bytes[off + 2], bytes[off + 1], bytes[off])
        };
        words.push(w);
        i = i + 1;
    }
    words
}

/// Reading a module in the machine's byte order agrees with the loader
/// when the module was stored in that order: if the words of a non-empty,
/// word-aligned byte string are all read in one byte order and the first
/// of them is the magic number, they are exactly the words that
/// `load_spirv` gives for those bytes.
pub proof fn lemma_native_words_load(bytes: Seq<u8>, words: Seq<u32>)
    requires
        bytes.len() % 4 == 0,
        bytes.len() > 0,
        words.len() == bytes.len() / 4,
        words_in_one_byte_order(bytes, words),
        words[0] == SPIRV_MAGIC_NUMBER,
    ensures
        spirv_from_bytes(bytes) == Some(words),
{
    lemma_word_bounds(bytes, 0);
    if forall|i: int| 0 <= i < words.len() ==> #[trigger] words[i] as int == le_word(bytes, i) {
        assert(le_word(bytes, 0) == SPIRV_MAGIC_NUMBER);
        assert forall|i: int| 0 <= i < words.len() implies #[trigger] le_words(bytes)[i]
            == words[i] by {
            lemma_word_bounds(bytes, i);
        }
        assert(le_words(bytes) =~= words);
    } else {
        assert(words[0] as int == be_word(bytes, 0));
        let b0 = bytes[0];
        let b1 = bytes[1];
        let b2 = bytes[2];
        let b3 = bytes[3];
        assert(b3 + b2 * 0x100 + b1 * 0x1_0000 + b0 * 0x100_0000 == 0x0723_0203 ==> b0 == 0x07
            && b1 == 0x23 && b2 == 0x02 && b3 == 0x03) by (nonlinear_arith);
        assert(le_word(bytes, 0) != SPIRV_MAGIC_NUMBER);
        assert forall|i: int| 0 <= i < words.len() implies #[trigger] be_words(bytes)[i]
            == words[i] by {
            lemma_word_bounds(bytes, i);
        }
        assert(be_words(bytes) =~= words);
    }
}

/// Both loaders agree on a little-endian SPIR-V binary: when the first
/// little-endian word of a non-empty, word-aligned byte string is the magic
/// number, `load_spirv` yields exactly the words of `spirv_bytes_to_words`.
pub proof fn lemma_loaders_agree_on_little_endian(b: Seq<u8>)
    requires
        b.len() % 4 == 0,
        b.len() > 0,
        le_words(b)[0] == SPIRV_MAGIC_NUMBER,
    ensures
        spirv_from_bytes(b) == Some(le_words(b)),
{
    lemma_word_bounds(b, 0);
}

/// Byte `k` (0 = least significant) of `w`.
pub open spec fn byte_of(w: u32, k: int) -> u8 {
    if k == 0 {
        (w & 0xffu32) as u8
    } else if k == 1 {
        ((w >> 8u32) & 0xffu32) as u8
    } else if k == 2 {
        ((w >> 16u32) & 0xffu32) as u8
    } else {
        ((w >> 24u32) & 0xffu32) as u8
    }
}

/// The words stored little-endian.
pub open spec fn le_bytes(ws: Seq<u32>) -> Seq<u8> {
    Seq::new(4 * ws.len(), |j: int| byte_of(ws[j / 4], j % 4))
}

/// The words stored big-endian.
pub open spec fn be_bytes(ws: Seq<u32>) -> Seq<u8> {
    Seq::new(4 * ws.len(), |j: int| byte_of(ws[j / 4], 3 - j % 4))
}

proof fn lemma_bytes_recompose(w: u32)
    ensures
        (w & 0xffu32) as int + ((w >> 8u32) & 0xffu32) as int * 0x100 + ((w >> 16u32)
            & 0xffu32) as int * 0x1_0000 + ((w >> 24u32) & 0xffu32) as int * 0x100_0000 == w,
{
    assert((w & 0xffu32) + ((w >> 8u32) & 0xffu32) * 0x100 + ((w >> 16u32) & 0xffu32)
        * 0x1_0000 + ((w >> 24u32) & 0xffu32) * 0x100_0000 == w) by (bit_vector);
}

proof fn lemma_word_of_stored(ws: Seq<u32>, i: int)
    requires
        0 <= i < ws.len(),
    ensures
        le_word(le_bytes(ws), i) == ws[i],
        be_word(be_bytes(ws), i) == ws[i],
{
    let w = ws[i];
    lemma_bytes_recompose(w);
    assert((4 * i) / 4 == i && (4 * i) % 4 == 0);
    assert((4 * i + 1) / 4 == i && (4 * i + 1) % 4 == 1);
    assert((4 * i + 2) / 4 == i && (4 * i + 2) % 4 == 2);
    assert((4 * i + 3) / 4 == i && (4 * i + 3) % 4 == 3);
    assert((w & 0xffu32) < 256) by (bit_vector);
    assert(((w >> 8u32) & 0xffu32) < 256) by (bit_vector);
    assert(((w >> 16u32) & 0xffu32) < 256) by (bit_vector);
    assert(((w >> 24u32) & 0xffu32) < 256) by (bit_vector);
}

proof fn lemma_words_of_stored(ws: Seq<u32>)
    ensures
        le_words(le_bytes(ws)) == ws,
        be_words(be_bytes(ws)) == ws,
{
    assert forall|i: int| 0 <= i < ws.len() implies #[trigger] le_words(le_bytes(ws))[i] == ws[i]
        && be_words(be_bytes(ws))[i] == ws[i] by {
        lemma_word_of_stored(ws, i);
    }
    assert(le_words(le_bytes(ws)) =~= ws);
    assert(be_words(be_bytes(ws)) =~= ws);
}

/// A SPIR-V module loads to the same words whether it was stored
/// little-endian or big-endian: for any words that start with the magic
/// number, both byte strings give back exactly those words.
#[verifier::spinoff_prover]
#[verifier::rlimit(40)]
pub proof fn lemma_byte_order_independent(ws: Seq<u32>)
    requires
        ws.len() > 0,
        ws[0] == SPIRV_MAGIC_NUMBER,
    ensures
        spirv_from_bytes(le_bytes(ws)) == Some(ws),
        spirv_from_bytes(be_bytes(ws)) == Some(ws),
{
    lemma_words_of_stored(ws);
    lemma_word_of_stored(ws, 0);
    let b = be_bytes(ws);
    assert(b[0] == 0x07 && b[1] == 0x23 && b[2] == 0x02 && b[3] == 0x03) by {
        let m = SPIRV_MAGIC_NUMBER;
        assert(((m >> 24u32) & 0xffu32) == 0x07 && ((m >> 16u32) & 0xffu32) == 0x23 && ((m
            >> 8u32) & 0xffu32) == 0x02 && (m & 0xffu32) == 0x03) by (bit_vector)
            requires
                m == 0x0723_0203u32,
        ;
        assert((0int) / 4 == 0 && (0int) % 4 == 0);
        assert((1int) / 4 == 0 && (1int) % 4 == 1);
        assert((2int) / 4 == 0 && (2int) % 4 == 2);
        assert((3int) / 4 == 0 && (3int) % 4 == 3);
    }
    assert(le_word(b, 0) != SPIRV_MAGIC_NUMBER);
}

} // verus!
