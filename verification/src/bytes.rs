//! The byte images of word streams handed to GPU buffers.

use vstd::prelude::*;
use vstd::endian::{Endian, endianness};

verus! {

/// The four bytes of `w`, least significant first.
pub open spec fn word_le_bytes(w: u32) -> Seq<u8> {
    seq![
        (w % 0x100) as u8,
        ((w / 0x100) % 0x100) as u8,
        ((w / 0x1_0000) % 0x100) as u8,
        ((w / 0x100_0000) % 0x100) as u8,
    ]
}

/// The four bytes of `w`, most significant first.
pub open spec fn word_be_bytes(w: u32) -> Seq<u8> {
    word_le_bytes(w).reverse()
}

/// The little-endian image of a word stream: each word's bytes in turn.
pub open spec fn words_le_bytes(words: Seq<u32>) -> Seq<u8>
    decreases words.len(),
{
    if words.len() == 0 {
        Seq::empty()
    } else {
        words_le_bytes(words.drop_last()) + word_le_bytes(words.last())
    }
}

/// The big-endian image of a word stream: each word's bytes in turn.
pub open spec fn words_be_bytes(words: Seq<u32>) -> Seq<u8>
    decreases words.len(),
{
    if words.len() == 0 {
        Seq::empty()
    } else {
        words_be_bytes(words.drop_last()) + word_be_bytes(words.last())
    }
}

/// The memory image of `words` on this machine: the little-endian image
/// where the machine is little-endian, the big-endian one otherwise.
pub open spec fn machine_image(words: Seq<u32>) -> Seq<u8> {
    match endianness() {
        Endian::Little => words_le_bytes(words),
        Endian::Big => words_be_bytes(words),
    }
}

/// Calls `bytemuck::cast_slice::<u32, u8>` and copies the bytes out.
///
/// The cast reinterprets the words' memory: four bytes per word, each word's
/// bytes in the machine's byte order, which `vstd::endian::endianness` names.
#[verifier::external_body]
pub(crate) fn words_as_bytes(words: &[u32]) -> (bytes: Vec<u8>)
    ensures
        bytes@ == machine_image(words@),
{
    bytemuck::cast_slice::<u32, u8>(words).to_vec()
}

/// The same words always give the same bytes.
pub proof fn lemma_same_words_same_bytes(a: Seq<u32>, b: Seq<u32>)
    requires
        a == b,
    ensures
        machine_image(a) == machine_image(b),
{
}

/// The four little-endian bytes of a word, read as base-256 digits from
/// the least significant, give back the word; the big-endian bytes are the
/// same digits from the most significant.
pub proof fn lemma_word_bytes_value(w: u32)
    ensures
        word_le_bytes(w).len() == 4,
        w == word_le_bytes(w)[0] + 0x100 * word_le_bytes(w)[1] + 0x1_0000 * word_le_bytes(w)[2]
            + 0x100_0000 * word_le_bytes(w)[3],
        word_be_bytes(w).len() == 4,
        w == word_be_bytes(w)[3] + 0x100 * word_be_bytes(w)[2] + 0x1_0000 * word_be_bytes(w)[1]
            + 0x100_0000 * word_be_bytes(w)[0],
{
    assert(w == (w % 0x100) + 0x100 * ((w / 0x100) % 0x100) + 0x1_0000 * ((w / 0x1_0000) % 0x100)
        + 0x100_0000 * ((w / 0x100_0000) % 0x100)) by (bit_vector);
    let b = word_le_bytes(w);
    assert(b[0] == w % 0x100);
    assert(b[1] == (w / 0x100) % 0x100);
    assert(b[2] == (w / 0x1_0000) % 0x100);
    assert(b[3] == (w / 0x100_0000) % 0x100);
    assert(word_be_bytes(w)[0] == b[3]);
    assert(word_be_bytes(w)[1] == b[2]);
    assert(word_be_bytes(w)[2] == b[1]);
    assert(word_be_bytes(w)[3] == b[0]);
}

proof fn lemma_le_group(words: Seq<u32>, i: int)
    requires
        0 <= i < words.len(),
    ensures
        words_le_bytes(words).subrange(4 * i, 4 * i + 4) == word_le_bytes(words[i]),
    decreases words.len(),
{
    lemma_le_len(words);
    lemma_le_len(words.drop_last());
    if i < words.len() - 1 {
        lemma_le_group(words.drop_last(), i);
        assert(words_le_bytes(words).subrange(4 * i, 4 * i + 4) =~= words_le_bytes(
            words.drop_last(),
        ).subrange(4 * i, 4 * i + 4));
    } else {
        assert(words_le_bytes(words).subrange(4 * i, 4 * i + 4) =~= word_le_bytes(words.last()));
    }
}

proof fn lemma_be_group(words: Seq<u32>, i: int)
    requires
        0 <= i < words.len(),
    ensures
        words_be_bytes(words).subrange(4 * i, 4 * i + 4) == word_be_bytes(words[i]),
    decreases words.len(),
{
    lemma_be_len(words);
    lemma_be_len(words.drop_last());
    if i < words.len() - 1 {
        lemma_be_group(words.drop_last(), i);
        assert(words_be_bytes(words).subrange(4 * i, 4 * i + 4) =~= words_be_bytes(
            words.drop_last(),
        ).subrange(4 * i, 4 * i + 4));
    } else {
        assert(words_be_bytes(words).subrange(4 * i, 4 * i + 4) =~= word_be_bytes(words.last()));
    }
}

/// Bytes `4 * i` to `4 * i + 3` of the image are the bytes of word `i`, in
/// the machine's byte order.
pub proof fn lemma_image_group(words: Seq<u32>, i: int)
    requires
        0 <= i < words.len(),
    ensures
        machine_image(words).subrange(4 * i, 4 * i + 4) == (match endianness() {
            Endian::Little => word_le_bytes(words[i]),
            Endian::Big => word_be_bytes(words[i]),
        }),
{
    lemma_le_group(words, i);
    lemma_be_group(words, i);
}

/// Four bytes per word.
pub proof fn lemma_image_len(words: Seq<u32>)
    ensures
        machine_image(words).len() == 4 * words.len(),
{
    lemma_le_len(words);
    lemma_be_len(words);
}

proof fn lemma_le_len(words: Seq<u32>)
    ensures
        words_le_bytes(words).len() == 4 * words.len(),
    decreases words.len(),
{
    if words.len() > 0 {
        lemma_le_len(words.drop_last());
    }
}

proof fn lemma_be_len(words: Seq<u32>)
    ensures
        words_be_bytes(words).len() == 4 * words.len(),
    decreases words.len(),
{
    if words.len() > 0 {
        lemma_be_len(words.drop_last());
    }
}

} // verus!
