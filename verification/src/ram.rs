//! Plain memory: every address is a byte of storage.
use vstd::prelude::*;
use crate::bus::{load_spec, Bus};

verus! {

/// 64K of RAM with no special addresses.
pub struct Ram {
    memory: [u8; 65536],
}

impl View for Ram {
    type V = Seq<u8>;

    closed spec fn view(&self) -> Seq<u8> {
        self.memory@
    }
}

impl Ram {
    /// Memory with every byte zero.
    pub fn new() -> (ram: Self)
        ensures
            ram@ == Seq::new(65536, |i: int| 0u8),
    {
        Ram { memory: [0u8; 65536] }
    }
}

impl Bus for Ram {
    open spec fn valid(state: Seq<u8>) -> bool {
        state.len() == 65536
    }

    open spec fn special(address: u16) -> bool {
        false
    }

    open spec fn read_byte(state: Seq<u8>, address: u16) -> u8 {
        state[address as int]
    }

    open spec fn read_next(state: Seq<u8>, address: u16) -> Seq<u8> {
        state
    }

    open spec fn write_next(state: Seq<u8>, address: u16, data: u8) -> Seq<u8> {
        state.update(address as int, data)
    }

    fn write(&mut self, address: u16, data: u8) {
        self.memory[address as usize] = data;
    }

    fn read(&mut self, address: u16) -> (data: u8) {
        self.memory[address as usize]
    }

    proof fn lemma_valid(&self) {
    }

    proof fn lemma_next_valid(state: Self::V, address: u16, data: u8) {
    }

    proof fn lemma_store(state: Seq<u8>, address: u16, data: u8, plain: u16) {
    }
}

/// Loading an image that fits the address space puts byte `i` of the image
/// at address `i` and leaves the memory behind the image as it was.
pub proof fn lemma_load(state: Seq<u8>, image: Seq<u8>)
    requires
        Ram::valid(state),
        image.len() <= 65536,
    ensures
        load_spec::<Ram>(state, image) == image + state.skip(image.len() as int),
    decreases image.len(),
{
    if image.len() > 0 {
        let front = image.drop_last();
        lemma_load(state, front);
        assert((front + state.skip(front.len() as int)).update(front.len() as int, image.last())
            =~= image + state.skip(image.len() as int));
    }
}

} // verus!
