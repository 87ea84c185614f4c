//! The lookup table from a byte to its number. A table is a value that its
//! user builds and owns; none is shared by the process.

use vstd::prelude::*;

verus! {

/// The number of entries: one for every byte.
pub const LUT_SIZE: usize = 256;

/// The number that the standard table gives a byte: the letters `A` to `D`
/// count from one, every other byte is zero.
pub open spec fn standard_entry(byte: u8) -> u64 {
    if 65 <= byte <= 68 {
        (byte - 64) as u64
    } else {
        0
    }
}

/// The standard table: the number of every byte, in the order of the
/// bytes.
pub open spec fn standard_table() -> Seq<u64> {
    Seq::new(LUT_SIZE as nat, |i: int| standard_entry(i as u8))
}

/// A table with one number for every byte.
#[derive(Clone, Copy, Debug)]
pub struct Lut {
    table: [u64; 256],
}

impl View for Lut {
    type V = Seq<u64>;

    closed spec fn view(&self) -> Seq<u64> {
        self.table@
    }
}

impl Lut {
    /// The standard table.
    pub fn new() -> (lut: Lut)
        ensures
            lut@ == standard_table(),
    {
        let mut table = [0u64;256];
        table[65] = 1;
        table[66] = 2;
        table[67] = 3;
        table[68] = 4;
        assert(table@ =~= standard_table());
        Lut { table }
    }

    /// The number of `byte`.
    pub fn get(&self, byte: u8) -> (number: u64)
        ensures
            self@.len() == LUT_SIZE,
            number == self@[byte as int],
    {
        self.table[byte as usize]
    }

    /// The same table with `number` for `byte`.
    pub fn with(self, byte: u8, number: u64) -> (lut: Lut)
        ensures
            lut@ == self@.update(byte as int, number),
    {
        let mut table = self.table;
        table[byte as usize] = number;
        Lut { table }
    }
}

} // verus!
