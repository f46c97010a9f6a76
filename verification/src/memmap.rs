// A flat RAM behind an indexed read/write interface.
use vstd::prelude::*;

verus! {

/// The size of the RAM.
pub const RAM_SIZE: usize = 0x800;

/// Memory that can be read and written by index.
pub trait MemMap: View<V = Seq<u8>> + Sized {
    fn read(&self, index: usize) -> (r: u8)
        requires
            index < self@.len(),
        ensures
            r == self@[index as int],
    ;

    fn write(&mut self, index: usize, byte: u8)
        requires
            index < old(self)@.len(),
        ensures
            final(self)@ == old(self)@.update(index as int, byte),
    ;
}

/// The 2 KiB of RAM.
pub struct Memory {
    ram: [u8; RAM_SIZE],
}

impl View for Memory {
    type V = Seq<u8>;

    closed spec fn view(&self) -> Seq<u8> {
        self.ram@
    }
}

impl Memory {
    /// Memory with every byte zero.
    pub fn new() -> (r: Memory)
        ensures
            r@ == Seq::new(RAM_SIZE as nat, |i: int| 0u8),
    {
        let r = Memory { ram: [0; RAM_SIZE] };
        proof {
            assert(r.ram@ =~= Seq::new(RAM_SIZE as nat, |i: int| 0u8));
        }
        r
    }

}

impl MemMap for Memory {
    fn read(&self, index: usize) -> (r: u8) {
        self.ram[index]
    }

    fn write(&mut self, index: usize, byte: u8) {
        self.ram[index] = byte;
    }
}

} // verus!
