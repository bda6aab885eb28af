//! The read-only memory of a game, split into banks of 16 KiB.
use vstd::prelude::*;
use crate::util::slices::vec_range_mut;

verus! {

/// The size of one bank.
pub const ROM_BANK_SIZE: usize = 0x4000;

/// The bytes of a game padded with zero to two banks at least.
pub open spec fn padded_game(game: Seq<u8>) -> Seq<u8> {
    if game.len() >= 0x8000 {
        game
    } else {
        Seq::new(0x8000, |i: int| if i < game.len() { game[i] } else { 0u8 })
    }
}

/// The end of the slice that `bank` and `bank_mut` give for bank `index`
/// of data of length `len`: the bank's start plus one bank size when the
/// data holds the whole bank, else the end of the data.
pub open spec fn bank_end(index: int, len: int) -> int {
    if len >= (index + 1) * 0x4000 {
        index + 0x4000
    } else {
        len
    }
}

/// `bank` and `bank_mut` return rather than stop for bank `index` of data
/// of length `len`.
pub open spec fn bank_defined(index: int, len: int) -> bool {
    &&& (index + 1) * 0x4000 <= usize::MAX
    &&& index * 0x4000 <= len
    &&& index * 0x4000 <= bank_end(index, len)
}

/// The read-only memory of a game.
pub struct ROM {
    data: Vec<u8>,
}

impl View for ROM {
    type V = Seq<u8>;

    closed spec fn view(&self) -> Seq<u8> {
        self.data@
    }
}

impl ROM {
    /// The game's bytes, padded with zero to two banks.
    pub fn new(game: Vec<u8>) -> (r: ROM)
        ensures
            r@ == padded_game(game@),
    {
        let mut data: Vec<u8> = Vec::new();
        let mut i: usize = 0;
        while i < ROM_BANK_SIZE * 2
            invariant
                i <= ROM_BANK_SIZE * 2,
                data@.len() == i,
                forall|j: int| 0 <= j < i ==> data@[j] == (if j < game@.len() { game@[j] } else { 0u8 }),
            decreases ROM_BANK_SIZE * 2 - i,
        {
            if i < game.len() {
                data.push(game[i]);
            } else {
                data.push(0);
            }
            i = i + 1;
        }
        if game.len() > ROM_BANK_SIZE * 2 {
        while i < game.len()
            invariant
                ROM_BANK_SIZE * 2 <= i <= game@.len(),
                data@.len() == i,
                forall|j: int| 0 <= j < i ==> data@[j] == game@[j],
            decreases game@.len() - i,
        {
            data.push(game[i]);
            i = i + 1;
        }
        }
        let r = ROM { data };
        assert(r@ =~= padded_game(game@));
        r
    }

    /// The byte at `address`.
    pub fn data(&self, address: u16) -> (r: u8)
        requires
            (address as int) < self@.len(),
        ensures
            r == self@[address as int],
    {
        self.data[address as usize]
    }

    /// The bytes of bank `index`.
    pub fn bank(&self, index: usize) -> (r: &[u8])
        requires
            bank_defined(index as int, self@.len() as int),
        ensures
            r@ == self@.subrange(index * 0x4000, bank_end(index as int, self@.len() as int)),
    {
        let start_slice = index * ROM_BANK_SIZE;
        let end_slice = if self.data.len() >= (index + 1) * ROM_BANK_SIZE {
            index + 1 * ROM_BANK_SIZE
        } else {
            self.data.len()
        };
        vstd::slice::slice_subrange(self.data.as_slice(), start_slice, end_slice)
    }

    /// The bytes of bank `index`, borrowed for writing.
    pub fn bank_mut(&mut self, index: usize) -> (r: &mut [u8])
        requires
            bank_defined(index as int, old(self)@.len() as int),
        ensures
            ({
                let start = index * 0x4000;
                let end = bank_end(index as int, old(self)@.len() as int);
                &&& r@ == old(self)@.subrange(start, end)
                &&& final(r)@.len() == end - start
                &&& final(self)@ == old(self)@.subrange(0, start) + final(r)@ + old(self)@.subrange(end, old(self)@.len() as int)
            }),
    {
        let start_slice = index * ROM_BANK_SIZE;
        let end_slice = if self.data.len() >= (index + 1) * ROM_BANK_SIZE {
            index + 1 * ROM_BANK_SIZE
        } else {
            self.data.len()
        };
        vec_range_mut(&mut self.data, start_slice, end_slice)
    }
}

} // verus!
