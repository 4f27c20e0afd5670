use vstd::prelude::*;

verus! {

/// Number of random bytes that make up one delivered word.
pub const WORD_BYTES: usize = 4;

/// The byte-collection state: how many bytes of the current word have been
/// gathered, and the bits gathered so far.
#[derive(Clone, Copy, Debug, PartialEq, Eq, Structural)]
pub struct GenerationState {
    /// Number of bytes already placed in `randomness`; 4 means a word is ready.
    pub index: usize,
    /// Accumulated word; byte `i` sits at bits `8 * i .. 8 * i + 8`.
    pub randomness: u32,
}

/// The word built from four bytes, the first one in the least significant
/// position.
pub open spec fn word_of(b0: u8, b1: u8, b2: u8, b3: u8) -> u32 {
    (b0 as u32) | ((b1 as u32) << 8u32) | ((b2 as u32) << 16u32) | ((b3 as u32) << 24u32)
}

/// Byte `i` (0 = least significant) of a word.
pub open spec fn byte_of(w: u32, i: u32) -> u8 {
    ((w >> (8 * i) as u32) & 0xffu32) as u8
}

impl GenerationState {
    /// The state in which no byte has been collected.
    pub open spec fn empty() -> GenerationState {
        GenerationState { index: 0, randomness: 0 }
    }

    /// A byte is still missing from the current word.
    pub open spec fn is_collecting(self) -> bool {
        self.index < WORD_BYTES
    }

    /// All four bytes are in: the word may be delivered.
    pub open spec fn is_ready(self) -> bool {
        self.index == WORD_BYTES
    }

    /// Well-formed: the index is in range and no bit at or above the next
    /// byte position has been set yet.
    pub open spec fn wf(self) -> bool {
        &&& self.index <= WORD_BYTES
        &&& self.index < WORD_BYTES ==> (self.randomness >> (8 * self.index) as u32) == 0
    }

    /// The state after byte `b` has been placed at position `index`.
    pub open spec fn collected(self, b: u8) -> GenerationState
        recommends
            self.is_collecting(),
    {
        GenerationState {
            index: (self.index + 1) as usize,
            randomness: self.randomness | ((b as u32) << (8 * self.index) as u32),
        }
    }

    /// The word that drawing from this state yields: the accumulator when the
    /// word is complete, nothing otherwise.
    pub open spec fn drawn_word(self) -> Option<u32> {
        if self.is_ready() {
            Some(self.randomness)
        } else {
            None
        }
    }

    /// The state after a draw: back to empty when a word was taken, unchanged
    /// otherwise.
    pub open spec fn drawn(self) -> GenerationState {
        if self.is_ready() {
            GenerationState::empty()
        } else {
            self
        }
    }

    /// A state with no byte collected.
    pub fn new() -> (r: GenerationState)
        ensures
            r == GenerationState::empty(),
            r.wf(),
    {
        assert((0u32 >> 0u32) == 0) by (bit_vector);
        GenerationState { index: 0, randomness: 0 }
    }

    /// Places byte `b` at the next free position of the word.
    pub fn collect(&mut self, b: u8)
        requires
            old(self).is_collecting(),
        ensures
            *final(self) == old(self).collected(b),
    {
        let shift: u32 = (8 * self.index) as u32;
        self.randomness = self.randomness | ((b as u32) << shift);
        self.index = self.index + 1;
    }
}

/// Placing a byte keeps the state well-formed: the new byte lands above
/// every bit collected so far and nothing is set above it.
pub proof fn lemma_collected_wf(s: GenerationState, b: u8)
    requires
        s.wf(),
        s.is_collecting(),
    ensures
        s.collected(b).wf(),
{
    let r: u32 = s.randomness;
    let x: u32 = b as u32;
    assert(x <= 255);
    if s.index == 0 {
        assert((r >> 0u32) == 0 && x <= 255 ==> ((r | (x << 0u32)) >> 8u32) == 0) by (bit_vector);
    } else if s.index == 1 {
        assert((r >> 8u32) == 0 && x <= 255 ==> ((r | (x << 8u32)) >> 16u32) == 0) by (bit_vector);
    } else if s.index == 2 {
        assert((r >> 16u32) == 0 && x <= 255 ==> ((r | (x << 16u32)) >> 24u32) == 0) by (bit_vector);
    }
}

/// Four bytes collected from the empty state make a complete word equal to
/// `b0 | b1 << 8 | b2 << 16 | b3 << 24`; reading the word back byte by byte
/// gives the bytes in the order they arrived. Drawing that word leaves the
/// empty state, from which the next word is collected the same way.
pub proof fn lemma_four_bytes_make_word(b0: u8, b1: u8, b2: u8, b3: u8)
    ensures
        GenerationState::empty().collected(b0).collected(b1).collected(b2).collected(b3)
            == (GenerationState { index: WORD_BYTES, randomness: word_of(b0, b1, b2, b3) }),
        GenerationState::empty().collected(b0).collected(b1).collected(b2).collected(b3).wf(),
        GenerationState::empty().collected(b0).collected(b1).collected(b2).collected(b3).drawn_word()
            == Some(word_of(b0, b1, b2, b3)),
        GenerationState::empty().collected(b0).collected(b1).collected(b2).collected(b3).drawn()
            == GenerationState::empty(),
        byte_of(word_of(b0, b1, b2, b3), 0) == b0,
        byte_of(word_of(b0, b1, b2, b3), 1) == b1,
        byte_of(word_of(b0, b1, b2, b3), 2) == b2,
        byte_of(word_of(b0, b1, b2, b3), 3) == b3,
{
    let x0: u32 = b0 as u32;
    let x1: u32 = b1 as u32;
    let x2: u32 = b2 as u32;
    let x3: u32 = b3 as u32;
    assert(x0 <= 255 && x1 <= 255 && x2 <= 255 && x3 <= 255);
    assert(((((0u32 | (x0 << 0u32)) | (x1 << 8u32)) | (x2 << 16u32)) | (x3 << 24u32))
        == x0 | (x1 << 8u32) | (x2 << 16u32) | (x3 << 24u32)) by (bit_vector);
    assert(x0 <= 255 && x1 <= 255 && x2 <= 255 && x3 <= 255 ==> {
        &&& ((x0 | (x1 << 8u32) | (x2 << 16u32) | (x3 << 24u32)) >> 0u32) & 0xffu32 == x0
        &&& ((x0 | (x1 << 8u32) | (x2 << 16u32) | (x3 << 24u32)) >> 8u32) & 0xffu32 == x1
        &&& ((x0 | (x1 << 8u32) | (x2 << 16u32) | (x3 << 24u32)) >> 16u32) & 0xffu32 == x2
        &&& ((x0 | (x1 << 8u32) | (x2 << 16u32) | (x3 << 24u32)) >> 24u32) & 0xffu32 == x3
    }) by (bit_vector);
}

/// A word is drawn at most once: after any draw the state holds no complete
/// word, so a second draw yields nothing; a draw that yields a word leaves
/// the state empty.
pub proof fn lemma_draw_once(s: GenerationState)
    ensures
        s.drawn().drawn_word() is None,
        s.drawn().drawn() == s.drawn(),
        s.drawn_word() is Some ==> s.drawn() == GenerationState::empty(),
{
}

} // verus!
