use vstd::prelude::*;
use vstd::endian::{endianness, Endian};

verus! {

/// Byte `k` (0 = least significant) of a 32-bit word.
pub open spec fn word_byte(w: u32, k: int) -> u8 {
    if k == 0 {
        (w % 256) as u8
    } else if k == 1 {
        ((w / 256) % 256) as u8
    } else if k == 2 {
        ((w / 65536) % 256) as u8
    } else {
        (w / 16777216) as u8
    }
}

/// The words laid out one after the other, each least significant byte first.
pub open spec fn le_encoding(words: Seq<u32>) -> Seq<u8> {
    Seq::new(4 * words.len(), |i: int| word_byte(words[i / 4], i % 4))
}

/// The words laid out one after the other, each most significant byte first.
pub open spec fn be_encoding(words: Seq<u32>) -> Seq<u8> {
    Seq::new(4 * words.len(), |i: int| word_byte(words[i / 4], 3 - i % 4))
}

/// The words laid out in the given byte order.
pub open spec fn encoding_in(order: Endian, words: Seq<u32>) -> Seq<u8> {
    match order {
        Endian::Little => le_encoding(words),
        Endian::Big => be_encoding(words),
    }
}

/// The in-memory representation of a sequence of words: the words laid out
/// in the byte order of the hardware running the code, one order for all.
pub open spec fn native_encoding(words: Seq<u32>, bytes: Seq<u8>) -> bool {
    bytes == encoding_in(endianness(), words)
}

/// The word that four little-endian bytes starting at `4 * i` stand for.
pub open spec fn le_word(bytes: Seq<u8>, i: int) -> int {
    bytes[4 * i] + 256 * bytes[4 * i + 1] + 65536 * bytes[4 * i + 2] + 16777216 * bytes[4 * i + 3]
}

/// The word that four big-endian bytes starting at `4 * i` stand for.
pub open spec fn be_word(bytes: Seq<u8>, i: int) -> int {
    bytes[4 * i + 3] + 256 * bytes[4 * i + 2] + 65536 * bytes[4 * i + 1] + 16777216 * bytes[4 * i]
}

proof fn lemma_word_bytes_recombine(w: u32)
    ensures
        word_byte(w, 0) + 256 * word_byte(w, 1) + 65536 * word_byte(w, 2) + 16777216 * word_byte(w, 3)
            == w,
{
    let a = w % 256;
    let b = (w / 256) % 256;
    let c = (w / 65536) % 256;
    let d = w / 16777216;
    assert(a + 256 * b + 65536 * c + 16777216 * d == w) by (nonlinear_arith)
        requires
            a == w % 256,
            b == (w / 256) % 256,
            c == (w / 65536) % 256,
            d == w / 16777216,
            w <= 0xffff_ffff,
    {
        assert(w == 256 * (w / 256) + a);
        assert(w / 256 == 256 * (w / 65536) + b);
        assert(w / 65536 == 256 * (w / 16777216) + c);
    }
}

/// Decoding either byte order of an encoding gives back every word: the bytes
/// handed to the GPU carry exactly the values they were made from.
pub proof fn lemma_encoding_roundtrip(words: Seq<u32>)
    ensures
        forall|i: int| 0 <= i < words.len() ==> #[trigger] le_word(le_encoding(words), i) == words[i],
        forall|i: int| 0 <= i < words.len() ==> #[trigger] be_word(be_encoding(words), i) == words[i],
{
    assert forall|i: int| 0 <= i < words.len() implies #[trigger] le_word(le_encoding(words), i)
        == words[i] by {
        let e = le_encoding(words);
        assert((4 * i) / 4 == i && (4 * i) % 4 == 0);
        assert((4 * i + 1) / 4 == i && (4 * i + 1) % 4 == 1);
        assert((4 * i + 2) / 4 == i && (4 * i + 2) % 4 == 2);
        assert((4 * i + 3) / 4 == i && (4 * i + 3) % 4 == 3);
        lemma_word_bytes_recombine(words[i]);
    }
    assert forall|i: int| 0 <= i < words.len() implies #[trigger] be_word(be_encoding(words), i)
        == words[i] by {
        assert((4 * i) / 4 == i && (4 * i) % 4 == 0);
        assert((4 * i + 1) / 4 == i && (4 * i + 1) % 4 == 1);
        assert((4 * i + 2) / 4 == i && (4 * i + 2) % 4 == 2);
        assert((4 * i + 3) / 4 == i && (4 * i + 3) % 4 == 3);
        lemma_word_bytes_recombine(words[i]);
    }
}

/// Whatever the machine's byte order, the bytes of an encoding decode, all in
/// one byte order, back to the words they were made from.
pub proof fn lemma_native_encoding_decodes(words: Seq<u32>, bytes: Seq<u8>)
    requires
        native_encoding(words, bytes),
    ensures
        bytes.len() == 4 * words.len(),
        (forall|i: int| 0 <= i < words.len() ==> #[trigger] le_word(bytes, i) == words[i]) || (forall|
            i: int,
        |
            0 <= i < words.len() ==> #[trigger] be_word(bytes, i) == words[i]),
{
    lemma_encoding_roundtrip(words);
}

/// Any two encodings use one byte order: the machine's. Either every
/// sequence of words is laid out little-endian, or every one big-endian;
/// the order never varies with the values encoded.
pub proof fn lemma_native_encoding_one_order(w1: Seq<u32>, b1: Seq<u8>, w2: Seq<u32>, b2: Seq<u8>)
    requires
        native_encoding(w1, b1),
        native_encoding(w2, b2),
    ensures
        (b1 == le_encoding(w1) && b2 == le_encoding(w2)) || (b1 == be_encoding(w1) && b2
            == be_encoding(w2)),
{
}

/// Equal words always give equal bytes.
pub proof fn lemma_native_encoding_deterministic(w: Seq<u32>, b1: Seq<u8>, b2: Seq<u8>)
    requires
        native_encoding(w, b1),
        native_encoding(w, b2),
    ensures
        b1 == b2,
{
}

/// Calls `bytemuck::cast_slice::<u32, u8>`, which reinterprets the words as
/// their in-memory bytes without copying; the result is then copied out.
/// The cast never fails for this pair of types (a `u8` has alignment 1 and
/// every length is a multiple of 1). What is claimed: four bytes per word, in
/// the byte order of the hardware (vstd's `endianness()`), the same order on
/// every call; which of little- or big-endian that is is not stated, as it
/// depends on the machine.
#[verifier::external_body]
pub(crate) fn words_as_bytes(words: &[u32]) -> (bytes: Vec<u8>)
    ensures
        native_encoding(words@, bytes@),
{
    bytemuck::cast_slice::<u32, u8>(words).to_vec()
}

} // verus!
