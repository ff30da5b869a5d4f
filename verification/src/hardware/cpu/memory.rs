use vstd::prelude::*;

verus! {

/// The number of cells in the address space: one for each 16-bit address.
pub const MAX_RAM: usize = 0x1_0000;

/// The flat, byte-addressable memory behind the bus.
pub struct Memory {
    cells: Vec<u8>,
}

impl View for Memory {
    type V = Seq<u8>;

    closed spec fn view(&self) -> Seq<u8> {
        self.cells@
    }
}

impl Memory {
    #[verifier::type_invariant]
    spec fn sized(&self) -> bool {
        self.cells@.len() == MAX_RAM
    }

    /// A memory of `MAX_RAM` cells, each holding zero.
    pub fn new() -> (memory: Memory)
        ensures
            memory@.len() == MAX_RAM,
            forall|address: int| 0 <= address < MAX_RAM ==> memory@[address] == 0,
    {
        let cells = vec![0u8; MAX_RAM];
        Memory { cells }
    }

    /// The number of cells, which is always `MAX_RAM`.
    pub fn length(&self) -> (length: usize)
        ensures
            length == self@.len(),
            length == MAX_RAM,
    {
        proof {
            use_type_invariant(self);
        }
        self.cells.len()
    }
}

} // verus!
