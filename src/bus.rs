use vstd::prelude::*;

verus! {

/// Size of the address space that the processor sees.
pub const MEMORY_SIZE: usize = 65536;

/// A flat 64KB byte-addressable memory that the processor reads and writes.
pub struct Bus {
    mem: Vec<u8>,
}

impl View for Bus {
    type V = Seq<u8>;

    closed spec fn view(&self) -> Seq<u8> {
        self.mem@
    }
}

impl Bus {
    /// Every 16-bit address is backed by a byte.
    pub open spec fn wf(&self) -> bool {
        self@.len() == MEMORY_SIZE
    }

    /// 64KB of zeroes.
    pub fn new() -> (r: Bus)
        ensures
            r.wf(),
            forall|i: int| 0 <= i < MEMORY_SIZE ==> #[trigger] r@[i] == 0,
    {
        let mut mem: Vec<u8> = Vec::new();
        let mut n: usize = 0;
        while n < MEMORY_SIZE
            invariant
                n <= MEMORY_SIZE,
                mem@.len() == n,
                forall|i: int| 0 <= i < n ==> #[trigger] mem@[i] == 0,
            decreases MEMORY_SIZE - n,
        {
            mem.push(0);
            n = n + 1;
        }
        Bus { mem }
    }

    /// The byte at `address`.
    pub fn read(&self, address: u16) -> (r: u8)
        requires
            self.wf(),
        ensures
            r == self@[address as int],
    {
        self.mem[address as usize]
    }

    /// Stores `value` at `address`.
    pub fn write(&mut self, address: u16, value: u8)
        requires
            old(self).wf(),
        ensures
            final(self)@ == old(self)@.update(address as int, value),
    {
        self.mem.set(address as usize, value);
    }

    /// Copies `bytes` into memory from `start` on, wrapping past 0xFFFF.
    pub fn load(&mut self, start: u16, bytes: &Vec<u8>)
        requires
            old(self).wf(),
            bytes@.len() <= MEMORY_SIZE,
        ensures
            final(self).wf(),
            forall|i: int|
                0 <= i < bytes@.len() ==> #[trigger] final(self)@[(start as int + i) % 65536]
                    == bytes@[i],
            forall|a: int|
                0 <= a < MEMORY_SIZE && (a - start as int + 65536) % 65536 >= bytes@.len()
                    ==> #[trigger] final(self)@[a] == old(self)@[a],
    {
        let mut k: usize = 0;
        while k < bytes.len()
            invariant
                k <= bytes@.len() <= MEMORY_SIZE,
                self.wf(),
                forall|i: int|
                    0 <= i < k ==> #[trigger] self@[(start as int + i) % 65536] == bytes@[i],
                forall|a: int|
                    0 <= a < MEMORY_SIZE && (a - start as int + 65536) % 65536 >= k
                        ==> #[trigger] self@[a] == old(self)@[a],
            decreases bytes@.len() - k,
        {
            let address: u16 = ((start as usize + k) % MEMORY_SIZE) as u16;
            self.write(address, bytes[k]);
            k = k + 1;
        }
    }
}

} // verus!
