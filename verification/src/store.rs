use vstd::prelude::*;

verus! {

/// The addressed storage that handles point into: a run of cells of `T`,
/// addressed from zero. It stands for the span of memory that the borrows
/// producing the handles observe; the handles themselves never own it.
pub struct Store<T> {
    cells: Vec<T>,
}

impl<T> View for Store<T> {
    type V = Seq<T>;

    closed spec fn view(&self) -> Seq<T> {
        self.cells@
    }
}

impl<T> Store<T> {
    /// Takes ownership of a run of cells to serve as the addressed storage.
    pub fn new(cells: Vec<T>) -> (s: Self)
        ensures
            s@ == cells@,
    {
        Store { cells }
    }

    /// The number of cells, one past the largest valid address.
    pub fn len(&self) -> (n: usize)
        ensures
            n == self@.len(),
    {
        self.cells.len()
    }

    /// Read-only access to the cell at address `i`.
    pub fn read(&self, i: usize) -> (r: &T)
        requires
            i < self@.len(),
        ensures
            *r == self@[i as int],
    {
        &self.cells[i]
    }

    /// Read-only access to the run of cells from address `a` (inclusive)
    /// to `b` (exclusive).
    pub fn read_slice<'a>(&'a self, a: usize, b: usize) -> (r: &'a [T])
        requires
            a <= b <= self@.len(),
        ensures
            r@ == self@.subrange(a as int, b as int),
    {
        &self.cells.as_slice()[a..b]
    }

    /// Exclusive access to the run of cells from address `a` (inclusive)
    /// to `b` (exclusive). The cells outside the run keep their values.
    pub fn borrow_slice_mut<'a>(&'a mut self, a: usize, b: usize) -> (r: &'a mut [T])
        requires
            a <= b <= old(self)@.len(),
        ensures
            r@ == old(self)@.subrange(a as int, b as int),
            final(self)@ == old(self)@.subrange(0, a as int) + final(r)@ + old(self)@.subrange(
                b as int,
                old(self)@.len() as int,
            ),
    {
        let ghost n = self@.len() as int;
        let slice = self.cells.as_mut_slice();
        let (left, rest) = slice.split_at_mut(a);
        let (mid, right) = rest.split_at_mut(b - a);
        proof {
            assert(old(self)@.subrange(a as int, n).subrange(0, b - a) =~= old(self)@.subrange(
                a as int,
                b as int,
            ));
            assert(old(self)@.subrange(a as int, n).subrange(b - a, n - a) =~= old(self)@.subrange(
                b as int,
                n,
            ));
        }
        mid
    }

    /// Exclusive access to the cell at address `i`.
    pub fn borrow_mut(&mut self, i: usize) -> (r: &mut T)
        requires
            i < old(self)@.len(),
        ensures
            *r == old(self)@[i as int],
            final(self)@ == old(self)@.update(i as int, *final(r)),
    {
        &mut self.cells[i]
    }
}

} // verus!
