use vstd::prelude::*;
use crate::util::Idx2;

verus! {

/// Whether `(x, y)` lies in a room of `dims` columns and rows.
pub open spec fn in_room(dims: Idx2, x: int, y: int) -> bool {
    0 <= x < dims.0 && 0 <= y < dims.1
}

/// The row-major slot of `(x, y)`.
pub open spec fn index_of(dims: Idx2, x: int, y: int) -> int {
    y * dims.0 + x
}

/// The column of slot `i`.
pub open spec fn column_of(dims: Idx2, i: int) -> int {
    i % (dims.0 as int)
}

/// The row of slot `i`.
pub open spec fn row_of(dims: Idx2, i: int) -> int {
    i / (dims.0 as int)
}

pub proof fn lemma_index_in_range(dims: Idx2, x: int, y: int)
    requires
        in_room(dims, x, y),
    ensures
        0 <= index_of(dims, x, y) < dims.0 * dims.1,
{
    let w = dims.0 as int;
    let h = dims.1 as int;
    assert(0 <= y * w + x < w * h) by (nonlinear_arith)
        requires
            0 <= x < w,
            0 <= y < h,
    ;
}

pub proof fn lemma_slot_position(dims: Idx2, i: int)
    requires
        dims.0 >= 0,
        dims.1 >= 0,
        0 <= i < dims.0 * dims.1,
    ensures
        in_room(dims, column_of(dims, i), row_of(dims, i)),
        index_of(dims, column_of(dims, i), row_of(dims, i)) == i,
{
    let w = dims.0 as int;
    let h = dims.1 as int;
    assert(w > 0) by (nonlinear_arith)
        requires
            0 <= i < w * h,
            h >= 0,
    ;
    vstd::arithmetic::div_mod::lemma_fundamental_div_mod(i, w);
    vstd::arithmetic::div_mod::lemma_mod_pos_bound(i, w);
    let q = i / w;
    let r = i % w;
    assert(q < h) by (nonlinear_arith)
        requires
            i == w * q + r,
            0 <= r,
            i < w * h,
            w > 0,
    ;
    vstd::arithmetic::div_mod::lemma_div_pos_is_pos(i, w);
}

/// A rectangular room of optional cells, stored row-major. Positions
/// outside the room hold nothing.
pub struct Grid<T> {
    dims: Idx2,
    cells: Vec<Option<T>>,
}

impl<T: Copy> Grid<T> {
    pub closed spec fn dims(&self) -> Idx2 {
        self.dims
    }

    /// The slots in row-major order.
    pub closed spec fn slots(&self) -> Seq<Option<T>> {
        self.cells@
    }

    pub open spec fn wf(&self) -> bool {
        &&& self.dims().0 >= 0
        &&& self.dims().1 >= 0
        &&& self.slots().len() == self.dims().0 * self.dims().1
    }

    /// What stands at `(x, y)`.
    pub open spec fn at(&self, x: int, y: int) -> Option<T> {
        if in_room(self.dims(), x, y) {
            self.slots()[index_of(self.dims(), x, y)]
        } else {
            None
        }
    }

    /// An empty room of `dims` columns and rows.
    pub fn new(dims: Idx2) -> (r: Grid<T>)
        requires
            dims.0 >= 0,
            dims.1 >= 0,
            dims.0 * dims.1 <= usize::MAX,
        ensures
            r.wf(),
            r.dims() == dims,
            forall|i: int| 0 <= i < r.slots().len() ==> #[trigger] r.slots()[i] is None,
    {
        let w = dims.0 as usize;
        let h = dims.1 as usize;
        assert(w * h == dims.0 * dims.1);
        let n = w * h;
        let mut cells: Vec<Option<T>> = Vec::new();
        let mut i: usize = 0;
        while i < n
            invariant
                i <= n,
                cells@.len() == i,
                forall|k: int| 0 <= k < i ==> #[trigger] cells@[k] is None,
            decreases n - i,
        {
            cells.push(None);
            i = i + 1;
        }
        Grid { dims, cells }
    }

    pub fn room_dims(&self) -> (r: Idx2)
        ensures
            r == self.dims(),
    {
        self.dims
    }

    /// The number of slots.
    pub fn len(&self) -> (r: usize)
        ensures
            r == self.slots().len(),
    {
        self.cells.len()
    }

    pub fn get_slot(&self, i: usize) -> (r: Option<T>)
        requires
            i < self.slots().len(),
        ensures
            r == self.slots()[i as int],
    {
        self.cells[i]
    }

    fn index(&self, x: i32, y: i32) -> (r: usize)
        requires
            self.wf(),
            in_room(self.dims(), x as int, y as int),
        ensures
            r == index_of(self.dims(), x as int, y as int),
            r < self.slots().len(),
    {
        proof {
            lemma_index_in_range(self.dims, x as int, y as int);
        }
        let n = self.cells.len();
        let w = self.dims.0 as usize;
        let yy = y as usize;
        let xx = x as usize;
        assert((yy as int) * (w as int) + (xx as int) == index_of(self.dims(), x as int, y as int));
        assert((yy as int) * (w as int) <= (yy as int) * (w as int) + (xx as int));
        yy * w + xx
    }

    /// What stands at `(x, y)`; nothing outside the room.
    pub fn get(&self, x: i64, y: i64) -> (r: Option<T>)
        requires
            self.wf(),
        ensures
            r == self.at(x as int, y as int),
    {
        if x < 0 || y < 0 || x >= self.dims.0 as i64 || y >= self.dims.1 as i64 {
            None
        } else {
            let i = self.index(x as i32, y as i32);
            self.cells[i]
        }
    }

    /// Puts `value` at `(x, y)`, which lies in the room.
    pub fn set(&mut self, x: i32, y: i32, value: Option<T>)
        requires
            old(self).wf(),
            in_room(old(self).dims(), x as int, y as int),
        ensures
            final(self).wf(),
            final(self).dims() == old(self).dims(),
            final(self).slots() == old(self).slots().update(
                index_of(old(self).dims(), x as int, y as int),
                value,
            ),
            forall|a: int, b: int|
                #[trigger] final(self).at(a, b) == if a == x && b == y {
                    value
                } else {
                    old(self).at(a, b)
                },
    {
        let i = self.index(x, y);
        self.cells.set(i, value);
        proof {
            assert forall|a: int, b: int|
                #[trigger] self.at(a, b) == if a == x && b == y {
                    value
                } else {
                    old(self).at(a, b)
                } by {
                if in_room(self.dims, a, b) && !(a == x && b == y) {
                    lemma_index_in_range(self.dims, a, b);
                    lemma_index_distinct(self.dims, a, b, x as int, y as int);
                }
            }
        }
    }
}

pub proof fn lemma_index_distinct(dims: Idx2, a: int, b: int, x: int, y: int)
    requires
        in_room(dims, a, b),
        in_room(dims, x, y),
        !(a == x && b == y),
    ensures
        index_of(dims, a, b) != index_of(dims, x, y),
{
    let w = dims.0 as int;
    if b == y {
    } else if b < y {
        assert(b * w + a < y * w + x) by (nonlinear_arith)
            requires
                b < y,
                0 <= a < w,
                0 <= x,
        ;
    } else {
        assert(y * w + x < b * w + a) by (nonlinear_arith)
            requires
                y < b,
                0 <= x < w,
                0 <= a,
        ;
    }
}

} // verus!
