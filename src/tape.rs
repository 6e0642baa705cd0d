//! The tape: a growable sequence of byte cells addressed by the data pointer.

use vstd::prelude::*;

verus! {

/// The value of a cell after `+`: one more, modulo 256.
pub open spec fn spec_increment(v: u8) -> u8 {
    ((v as int + 1) % 256) as u8
}

/// The value of a cell after `-`: one less, modulo 256.
pub open spec fn spec_decrement(v: u8) -> u8 {
    ((v as int + 255) % 256) as u8
}

/// Adds one to a cell value, wrapping 255 to 0.
pub fn increment(v: u8) -> (r: u8)
    ensures
        r == spec_increment(v),
{
    if v == 255 {
        0
    } else {
        v + 1
    }
}

/// Subtracts one from a cell value, wrapping 0 to 255.
pub fn decrement(v: u8) -> (r: u8)
    ensures
        r == spec_decrement(v),
{
    if v == 0 {
        255
    } else {
        v - 1
    }
}

/// Cell arithmetic is arithmetic modulo 256: incrementing 255 gives 0,
/// decrementing 0 gives 255, and an increment undoes a decrement (and the
/// other way round) for every cell value.
pub proof fn lemma_cell_arithmetic_wraps(v: u8)
    ensures
        spec_increment(255) == 0,
        spec_decrement(0) == 255,
        spec_increment(spec_decrement(v)) == v,
        spec_decrement(spec_increment(v)) == v,
{
}

/// `s` extended with zero cells so that index `k` exists; `s` itself when it
/// is already long enough.
pub open spec fn zero_extended(s: Seq<u8>, k: nat) -> Seq<u8> {
    if k < s.len() {
        s
    } else {
        s + Seq::new((k + 1 - s.len()) as nat, |i: int| 0u8)
    }
}

/// `s` cut or zero-extended to exactly `len` cells.
pub open spec fn resized(s: Seq<u8>, len: nat) -> Seq<u8> {
    if len <= s.len() {
        s.subrange(0, len as int)
    } else {
        s + Seq::new((len - s.len()) as nat, |i: int| 0u8)
    }
}

/// The value read at index `k`: the cell if it exists, zero otherwise.
pub open spec fn cell_at(s: Seq<u8>, k: nat) -> u8 {
    if k < s.len() {
        s[k as int]
    } else {
        0
    }
}

/// The engine's memory. Its view is the sequence of cell values.
pub struct Tape {
    cells: Vec<u8>,
}

impl View for Tape {
    type V = Seq<u8>;

    closed spec fn view(&self) -> Seq<u8> {
        self.cells@
    }
}

impl Tape {
    /// A tape of `len` zero cells.
    pub fn new(len: usize) -> (t: Tape)
        ensures
            t@ == Seq::new(len as nat, |i: int| 0u8),
    {
        let mut cells: Vec<u8> = Vec::new();
        let mut i: usize = 0;
        while i < len
            invariant
                i <= len,
                cells@ == Seq::new(i as nat, |j: int| 0u8),
            decreases len - i,
        {
            cells.push(0);
            i = i + 1;
        }
        Tape { cells }
    }

    /// The number of cells.
    pub fn len(&self) -> (r: usize)
        ensures
            r == self@.len(),
    {
        self.cells.len()
    }

    /// The cells, as a slice, for display.
    pub fn cells(&self) -> (r: &[u8])
        ensures
            r@ == self@,
    {
        self.cells.as_slice()
    }

    /// Makes index `k` addressable: when the tape is too short it grows to
    /// `k + 1` cells, the new ones zero; otherwise nothing changes.
    pub fn ensure_cell(&mut self, k: usize)
        requires
            k < usize::MAX,
        ensures
            final(self)@ == zero_extended(old(self)@, k as nat),
    {
        if k >= self.cells.len() {
            let ghost before = self.cells@;
            self.cells.resize(k + 1, 0);
            proof {
                assert forall|i: int| before.len() <= i < k + 1 implies self.cells@[i] == 0u8 by {
                    assert(vstd::pervasive::cloned::<u8>(0u8, self.cells@[i]));
                }
                assert(self.cells@ =~= zero_extended(before, k as nat));
            }
        }
    }

    /// Reads cell `k`, first growing the tape so that it exists.
    pub fn read(&mut self, k: usize) -> (r: u8)
        requires
            k < usize::MAX,
        ensures
            final(self)@ == zero_extended(old(self)@, k as nat),
            r == cell_at(old(self)@, k as nat),
    {
        self.ensure_cell(k);
        self.cells[k]
    }

    /// Writes `v` into cell `k`, first growing the tape so that it exists:
    /// the cells below the old length keep their values, those between the
    /// old length and `k` are zero.
    pub fn write(&mut self, k: usize, v: u8)
        requires
            k < usize::MAX,
        ensures
            final(self)@ == zero_extended(old(self)@, k as nat).update(k as int, v),
            final(self)@.len() == if k < old(self)@.len() { old(self)@.len() as int } else { k + 1 },
            forall|i: int| 0 <= i < old(self)@.len() && i != k ==> final(self)@[i] == old(self)@[i],
            forall|i: int| old(self)@.len() <= i < k ==> final(self)@[i] == 0u8,
            final(self)@[k as int] == v,
    {
        self.ensure_cell(k);
        self.cells.set(k, v);
    }

    /// Sets every cell to zero, keeping the length.
    pub fn clear(&mut self)
        ensures
            final(self)@ == Seq::new(old(self)@.len(), |i: int| 0u8),
    {
        let n = self.cells.len();
        let mut i: usize = 0;
        while i < n
            invariant
                i <= n,
                self.cells@.len() == n,
                forall|j: int| 0 <= j < i ==> self.cells@[j] == 0u8,
            decreases n - i,
        {
            self.cells.set(i, 0);
            i = i + 1;
        }
        assert(self.cells@ =~= Seq::new(n as nat, |i: int| 0u8));
    }

    /// Sets the length to `len`: a longer tape gets zero cells at its end, a
    /// shorter one loses its last cells.
    pub fn resize(&mut self, len: usize)
        ensures
            final(self)@ == resized(old(self)@, len as nat),
    {
        let ghost before = self.cells@;
        self.cells.resize(len, 0);
        proof {
            if len > before.len() {
                assert forall|i: int| before.len() <= i < len implies self.cells@[i] == 0u8 by {
                    assert(vstd::pervasive::cloned::<u8>(0u8, self.cells@[i]));
                }
                assert forall|i: int| 0 <= i < before.len() implies self.cells@[i] == before[i] by {
                    assert(self.cells@.subrange(0, before.len() as int)[i] == before[i]);
                }
            }
            assert(self.cells@ =~= resized(before, len as nat));
        }
    }
}

} // verus!
