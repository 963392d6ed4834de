use vstd::prelude::*;

verus! {

/// The number of cells of a full 16-bit address space. A program image
/// may be shorter; it is loaded verbatim from offset 0 and its length is
/// the extent of addressable memory for the run.
pub const N_BYTES: usize = 65536;

/// A byte-addressable store holding the program image and the data it
/// works on. Pure storage: no decoding logic lives here, and the
/// execution engine is its only mutator.
#[derive(Debug)]
pub struct Memory {
    mapping: Vec<u8>,
}

impl View for Memory {
    type V = Seq<u8>;

    closed spec fn view(&self) -> Seq<u8> {
        self.mapping@
    }
}

impl Memory {
    /// Every image fits the 16-bit address space.
    #[verifier::type_invariant]
    spec fn inv(self) -> bool {
        self.mapping@.len() <= N_BYTES
    }

    /// Wraps a loaded program image, at most 65536 bytes, as the
    /// emulator's memory.
    pub fn new(memory: Vec<u8>) -> (m: Memory)
        requires
            memory@.len() <= N_BYTES,
        ensures
            m@ == memory@,
    {
        Memory { mapping: memory }
    }

    /// The extent of loaded memory in bytes.
    pub fn instructions_len(&self) -> (n: usize)
        ensures
            n == self@.len(),
            n <= N_BYTES,
    {
        proof {
            use_type_invariant(self);
        }
        self.mapping.len()
    }

    /// The byte stored at `pointer`.
    pub fn fetch_byte_at_offset(&self, pointer: u16) -> (b: u8)
        requires
            pointer < self@.len(),
        ensures
            b == self@[pointer as int],
    {
        self.mapping[pointer as usize]
    }

    /// The `size` bytes stored from `pointer` on.
    pub fn fetch_bytes_at_offset(&self, pointer: u16, size: usize) -> (bytes: &[u8])
        requires
            pointer + size <= self@.len(),
        ensures
            bytes@ == self@.subrange(pointer as int, pointer + size),
    {
        proof {
            use_type_invariant(self);
        }
        vstd::slice::slice_subrange(self.mapping.as_slice(), pointer as usize, pointer as usize + size)
    }

    /// Overwrites the byte stored at `pointer`.
    pub fn set_byte_at_offset(&mut self, pointer: u16, value: u8)
        requires
            pointer < old(self)@.len(),
        ensures
            final(self)@ == old(self)@.update(pointer as int, value),
    {
        proof {
            use_type_invariant(&*self);
        }
        self.mapping[pointer as usize] = value;
    }
}

} // verus!
