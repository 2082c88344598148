//! Memory images of 32-bit words.
//!
//! Everything that is handed to the GPU is laid out in 32-bit words first. The
//! bytes of a word sequence depend on the byte order of the machine. That is one
//! order for all data; which one it is, is left open.

use vstd::prelude::*;

verus! {

/// The order in which the four bytes of a word lie in memory.
pub enum ByteOrder {
    Little,
    Big,
}

/// The byte order of the machine: one and the same for all data. Nothing is said
/// of which it is.
pub closed spec fn machine_order() -> ByteOrder {
    arbitrary()
}

/// The four bytes of `word`, in the given byte order.
pub open spec fn word_bytes(order: ByteOrder, word: u32) -> Seq<u8> {
    let b0 = (word % 0x100) as u8;
    let b1 = (word / 0x100 % 0x100) as u8;
    let b2 = (word / 0x1_0000 % 0x100) as u8;
    let b3 = (word / 0x100_0000) as u8;
    match order {
        ByteOrder::Little => seq![b0, b1, b2, b3],
        ByteOrder::Big => seq![b3, b2, b1, b0],
    }
}

/// The word whose four bytes, in the given byte order, are `bytes`.
pub open spec fn bytes_word(order: ByteOrder, bytes: Seq<u8>) -> u32 {
    match order {
        ByteOrder::Little => (bytes[0] + 0x100 * bytes[1] + 0x1_0000 * bytes[2] + 0x100_0000
            * bytes[3]) as u32,
        ByteOrder::Big => (bytes[3] + 0x100 * bytes[2] + 0x1_0000 * bytes[1] + 0x100_0000
            * bytes[0]) as u32,
    }
}

/// The bytes of `words`, one word after the other.
pub open spec fn words_to_bytes(order: ByteOrder, words: Seq<u32>) -> Seq<u8> {
    Seq::new(4 * words.len(), |i: int| word_bytes(order, words[i / 4])[i % 4])
}

/// The words that `bytes` holds, four bytes each.
pub open spec fn bytes_to_words(order: ByteOrder, bytes: Seq<u8>) -> Seq<u32> {
    Seq::new(bytes.len() / 4, |i: int| bytes_word(order, bytes.subrange(4 * i, 4 * i + 4)))
}

/// `bytes` is what `words` look like in memory, on a machine of one byte order
/// or the other.
pub open spec fn is_image(bytes: Seq<u8>, words: Seq<u32>) -> bool {
    ||| bytes == words_to_bytes(ByteOrder::Little, words)
    ||| bytes == words_to_bytes(ByteOrder::Big, words)
}

/// Reading a word back from its own bytes gives the word.
proof fn lemma_word_round_trip(order: ByteOrder, word: u32)
    ensures
        word_bytes(order, word).len() == 4,
        bytes_word(order, word_bytes(order, word)) == word,
{
}

/// Writing the word that four bytes hold gives those bytes.
proof fn lemma_bytes_round_trip(order: ByteOrder, bytes: Seq<u8>)
    requires
        bytes.len() == 4,
    ensures
        word_bytes(order, bytes_word(order, bytes)) == bytes,
{
    let w = bytes_word(order, bytes);
    let (b0, b1, b2, b3) = match order {
        ByteOrder::Little => (bytes[0], bytes[1], bytes[2], bytes[3]),
        ByteOrder::Big => (bytes[3], bytes[2], bytes[1], bytes[0]),
    };
    assert(w == b0 + 0x100 * b1 + 0x1_0000 * b2 + 0x100_0000 * b3);
    assert(w % 0x100 == b0);
    assert(w / 0x100 % 0x100 == b1);
    assert(w / 0x1_0000 % 0x100 == b2);
    assert(w / 0x100_0000 == b3);
    assert(word_bytes(order, w) =~= bytes);
}

/// What is written as bytes is read back unchanged: the words of the bytes of
/// `words` are `words`.
pub proof fn law_words_round_trip(order: ByteOrder, words: Seq<u32>)
    ensures
        bytes_to_words(order, words_to_bytes(order, words)) == words,
{
    let bytes = words_to_bytes(order, words);
    assert forall|i: int| 0 <= i < words.len() implies bytes_word(
        order,
        bytes.subrange(4 * i, 4 * i + 4),
    ) == words[i] by {
        lemma_word_round_trip(order, words[i]);
        assert(bytes.subrange(4 * i, 4 * i + 4) =~= word_bytes(order, words[i]));
    }
    assert(bytes_to_words(order, bytes) =~= words);
}

/// What is read as words is written back unchanged, as long as the bytes are
/// whole words.
pub proof fn law_bytes_round_trip(order: ByteOrder, bytes: Seq<u8>)
    requires
        bytes.len() % 4 == 0,
    ensures
        words_to_bytes(order, bytes_to_words(order, bytes)) == bytes,
{
    let words = bytes_to_words(order, bytes);
    assert forall|i: int| 0 <= i < bytes.len() implies word_bytes(order, words[i / 4])[i % 4]
        == bytes[i] by {
        let chunk = bytes.subrange(4 * (i / 4), 4 * (i / 4) + 4);
        lemma_bytes_round_trip(order, chunk);
        assert(chunk[i % 4] == bytes[i]);
    }
    assert(words_to_bytes(order, words) =~= bytes);
}

/// `words` are what `bytes` hold, read in one byte order or the other.
pub open spec fn reads_as(bytes: Seq<u8>, words: Seq<u32>) -> bool {
    ||| words == bytes_to_words(ByteOrder::Little, bytes)
    ||| words == bytes_to_words(ByteOrder::Big, bytes)
}

/// An image can be read back, in the order in which it was made.
pub proof fn law_image_reads_back(bytes: Seq<u8>, words: Seq<u32>)
    requires
        is_image(bytes, words),
    ensures
        bytes.len() == 4 * words.len(),
        reads_as(bytes, words),
{
    law_words_round_trip(ByteOrder::Little, words);
    law_words_round_trip(ByteOrder::Big, words);
}

/// Each word can be told from its place in the bytes: four bytes a word, the
/// lowest first or last.
pub proof fn law_bytes_hold_words(order: ByteOrder, words: Seq<u32>, i: int)
    requires
        0 <= i < words.len(),
    ensures
        ({
            let bytes = words_to_bytes(order, words);
            &&& bytes.len() == 4 * words.len()
            &&& order is Little ==> words[i] == bytes[4 * i] + 256 * bytes[4 * i + 1] + 65536
                * bytes[4 * i + 2] + 16777216 * bytes[4 * i + 3]
            &&& order is Big ==> words[i] == bytes[4 * i + 3] + 256 * bytes[4 * i + 2] + 65536
                * bytes[4 * i + 1] + 16777216 * bytes[4 * i]
        }),
{
    let bytes = words_to_bytes(order, words);
    let one = word_bytes(order, words[i]);
    assert(bytes[4 * i] == one[0]);
    assert(bytes[4 * i + 1] == one[1]);
    assert(bytes[4 * i + 2] == one[2]);
    assert(bytes[4 * i + 3] == one[3]);
}

/// Four bytes are read as one word: the lowest byte first, or last.
pub proof fn law_word_of_bytes(order: ByteOrder, bytes: Seq<u8>)
    requires
        bytes.len() == 4,
    ensures
        order is Little ==> bytes_word(order, bytes) == bytes[0] + 256 * bytes[1] + 65536 * bytes[2]
            + 16777216 * bytes[3],
        order is Big ==> bytes_word(order, bytes) == bytes[3] + 256 * bytes[2] + 65536 * bytes[1]
            + 16777216 * bytes[0],
{
}

/// Words that follow each other have bytes that follow each other.
pub proof fn law_bytes_append(order: ByteOrder, first: Seq<u32>, second: Seq<u32>)
    ensures
        words_to_bytes(order, first + second) == words_to_bytes(order, first) + words_to_bytes(
            order,
            second,
        ),
{
    let left = words_to_bytes(order, first + second);
    let right = words_to_bytes(order, first) + words_to_bytes(order, second);
    assert forall|k: int| 0 <= k < left.len() implies left[k] == right[k] by {
        if k < 4 * first.len() {
            assert((first + second)[k / 4] == first[k / 4]);
        } else {
            let m = k - 4 * first.len();
            assert(m / 4 == k / 4 - first.len() && m % 4 == k % 4);
            assert((first + second)[k / 4] == second[m / 4]);
        }
    }
    assert(left =~= right);
}

/// No two words have the same bytes.
pub proof fn law_word_image_is_unique(order: ByteOrder, a: u32, b: u32)
    requires
        words_to_bytes(order, seq![a]) == words_to_bytes(order, seq![b]),
    ensures
        a == b,
{
    law_words_round_trip(order, seq![a]);
    law_words_round_trip(order, seq![b]);
    assert(seq![a][0] == seq![b][0]);
}

/// Calls `bytemuck::cast_slice`, from words to bytes.
///
/// Trusted: the bytes are the words' own bytes in memory, one word after the
/// other, all in the byte order of the machine.
#[verifier::external_body]
pub(crate) fn cast_words(words: &[u32]) -> (bytes: Vec<u8>)
    ensures
        bytes@ == words_to_bytes(machine_order(), words@),
        is_image(bytes@, words@),
{
    bytemuck::cast_slice::<u32, u8>(words).to_vec()
}

/// Calls `bytemuck::pod_collect_to_vec`, from bytes to words.
///
/// Trusted: the words' own bytes in memory, all in the byte order of the
/// machine, are the given bytes.
#[verifier::external_body]
pub(crate) fn collect_words(bytes: &[u8]) -> (words: Vec<u32>)
    requires
        bytes@.len() % 4 == 0,
    ensures
        bytes@ == words_to_bytes(machine_order(), words@),
        is_image(bytes@, words@),
{
    bytemuck::pod_collect_to_vec::<u8, u32>(bytes)
}

} // verus!
