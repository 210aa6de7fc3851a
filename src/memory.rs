use vstd::prelude::*;

verus! {

/// Size of the 16-bit address space.
pub const ADDRESS_SPACE: usize = 0x10000;

/// A flat, byte-addressed 64 KiB memory: the bus as the core sees it.
pub struct Memory {
    bytes: Vec<u8>,
}

impl Memory {
    pub closed spec fn view(&self) -> Seq<u8> {
        self.bytes@
    }

    /// Well-formed: the whole address space is backed.
    pub open spec fn wf(&self) -> bool {
        self@.len() == 0x10000
    }

    /// Memory holding `code` from address 0, zero elsewhere; bytes past the
    /// end of the address space are dropped.
    pub fn from_bytes(code: &[u8]) -> (m: Memory)
        ensures
            m.wf(),
            forall|i: int| 0 <= i < 0x10000 ==> #[trigger] m@[i] == if i < code@.len() {
                code@[i]
            } else {
                0u8
            },
    {
        let mut bytes: Vec<u8> = Vec::with_capacity(ADDRESS_SPACE);
        let mut i: usize = 0;
        while i < ADDRESS_SPACE
            invariant
                i <= ADDRESS_SPACE,
                bytes@.len() == i,
                forall|j: int| 0 <= j < i ==> #[trigger] bytes@[j] == if j < code@.len() {
                    code@[j]
                } else {
                    0u8
                },
            decreases ADDRESS_SPACE - i,
        {
            if i < code.len() {
                bytes.push(code[i]);
            } else {
                bytes.push(0);
            }
            i = i + 1;
        }
        Memory { bytes }
    }

    pub fn read(&self, addr: u16) -> (v: u8)
        requires
            self.wf(),
        ensures
            v == self@[addr as int],
    {
        self.bytes[addr as usize]
    }

    pub fn write(&mut self, addr: u16, v: u8)
        requires
            old(self).wf(),
        ensures
            final(self)@ == old(self)@.update(addr as int, v),
            final(self)@.len() == 0x10000,
    {
        self.bytes.set(addr as usize, v);
    }
}

} // verus!
