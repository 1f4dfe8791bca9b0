//! Two-dimensional rectangles of values stored in host memory.
use vstd::prelude::*;
use vstd::slice::slice_subrange;
use vstd::std_specs::maybe_uninit::MaybeUninitAdditionalSpecFns;
use vstd::arithmetic::div_mod::{lemma_fundamental_div_mod, lemma_mod_pos_bound};
use std::mem::MaybeUninit;

verus! {

/// Cell `(r, c)` of a row-major sequence whose rows have `w` cells.
pub open spec fn cell_at<T>(s: Seq<T>, w: int, r: int, c: int) -> T {
    s[r * w + c]
}

/// Where cell `(r, c)` of a `w`-wide, `h`-high rectangle lies in row-major order.
pub proof fn lemma_cell_index(r: int, c: int, w: int, h: int)
    by (nonlinear_arith)
    requires
        0 <= r < h,
        0 <= c < w,
    ensures
        0 <= r * w,
        r * w + c < w * h,
        r * w + w == (r + 1) * w,
        (r + 1) * w <= w * h,
        h * w == w * h,
{
}

proof fn lemma_next_row(r: int, w: int)
    by (nonlinear_arith)
    ensures
        (r + 1) * w == r * w + w,
        r * w == w * r,
{
}

proof fn lemma_nonzero_factors(w: int, h: int)
    by (nonlinear_arith)
    requires
        w >= 0,
        h >= 0,
        w * h != 0,
    ensures
        w > 0,
        h > 0,
{
}

/// Rows before row `r` lie before it.
proof fn lemma_row_before(rr: int, cc: int, r: int, w: int)
    by (nonlinear_arith)
    requires
        0 <= rr < r,
        0 <= cc < w,
    ensures
        rr * w + cc < r * w,
        0 <= rr * w + cc,
{
}

/// `n / w` whole rows of `w` cells fit in `n` cells.
proof fn lemma_div_rows(n: int, w: int)
    requires
        n >= 0,
        w > 0,
    ensures
        0 <= n / w,
        (n / w) * w <= n,
        w * (n / w) <= n,
{
    lemma_fundamental_div_mod(n, w);
    lemma_mod_pos_bound(n, w);
    assert((n / w) * w == w * (n / w)) by (nonlinear_arith);
    assert(0 <= n / w) by (nonlinear_arith)
        requires
            n == w * (n / w) + n % w,
            0 <= n % w < w,
            w > 0,
            n >= 0,
    ;
}

/// Reads the first `h` rows of `w` cells of `v`, where `v` holds the cells
/// column after column (`h` cells per column); returns them row after row.
fn gather_col_major<T: Copy>(v: &[T], w: usize, h: usize) -> (out: Vec<T>)
    requires
        w * h <= v@.len(),
    ensures
        out@.len() == w * h,
        forall|r: int, c: int|
            0 <= r < h && 0 <= c < w ==> #[trigger] cell_at(out@, w as int, r, c) == v@[c * h + r],
{
    let vlen = v.len();
    let mut out: Vec<T> = Vec::new();
    let mut r: usize = 0;
    while r < h
        invariant
            r <= h,
            w * h <= v@.len(),
            v@.len() == vlen,
            out@.len() == r * w,
            forall|rr: int, cc: int|
                0 <= rr < r && 0 <= cc < w ==> #[trigger] cell_at(out@, w as int, rr, cc) == v@[cc
                    * h + rr],
        decreases h - r,
    {
        let mut c: usize = 0;
        while c < w
            invariant
                r < h,
                c <= w,
                w * h <= v@.len(),
                v@.len() == vlen,
                out@.len() == r * w + c,
                forall|rr: int, cc: int|
                    0 <= rr < r && 0 <= cc < w ==> #[trigger] cell_at(out@, w as int, rr, cc)
                        == v@[cc * h + rr],
                forall|cc: int| 0 <= cc < c ==> #[trigger] cell_at(out@, w as int, r as int, cc) == v@[cc * h + r],
            decreases w - c,
        {
            proof {
                lemma_cell_index(c as int, r as int, h as int, w as int);
                lemma_cell_index(r as int, c as int, w as int, h as int);
            }
            let x = v[c * h + r];
            let ghost prev = out@;
            out.push(x);
            proof {
                assert forall|rr: int, cc: int|
                    0 <= rr < r && 0 <= cc < w implies #[trigger] cell_at(out@, w as int, rr, cc)
                        == v@[cc * h + rr] by {
                    lemma_row_before(rr, cc, r as int, w as int);
                    assert(cell_at(prev, w as int, rr, cc) == v@[cc * h + rr]);
                }
                assert forall|cc: int| 0 <= cc < c + 1 implies #[trigger] cell_at(out@, w as int, r as int, cc)
                    == v@[cc * h + r] by {
                    if cc < c {
                        assert(cell_at(prev, w as int, r as int, cc) == v@[cc * h + r]);
                    }
                }
            }
            c = c + 1;
        }
        proof {
            lemma_next_row(r as int, w as int);
        }
        r = r + 1;
    }
    proof {
        lemma_next_row(h as int, w as int);
    }
    out
}

/// Clones the first `h` rows of `w` cells of `v`, where `v` holds the cells
/// column after column (`h` cells per column); returns them row after row.
fn gather_col_major_cloned<T: Clone>(v: &[T], w: usize, h: usize) -> (out: Vec<T>)
    requires
        w * h <= v@.len(),
    ensures
        out@.len() == w * h,
        forall|r: int, c: int|
            0 <= r < h && 0 <= c < w ==> cloned(v@[c * h + r], #[trigger] cell_at(out@, w as int, r, c)),
{
    let vlen = v.len();
    let mut out: Vec<T> = Vec::new();
    let mut r: usize = 0;
    while r < h
        invariant
            r <= h,
            w * h <= v@.len(),
            v@.len() == vlen,
            out@.len() == r * w,
            forall|rr: int, cc: int|
                0 <= rr < r && 0 <= cc < w ==> cloned(v@[cc * h + rr], #[trigger] cell_at(out@, w as int, rr, cc)),
        decreases h - r,
    {
        let mut c: usize = 0;
        while c < w
            invariant
                r < h,
                c <= w,
                w * h <= v@.len(),
                v@.len() == vlen,
                out@.len() == r * w + c,
                forall|rr: int, cc: int|
                    0 <= rr < r && 0 <= cc < w ==> cloned(v@[cc * h + rr], #[trigger] cell_at(out@, w as int, rr, cc)),
                forall|cc: int| 0 <= cc < c ==> cloned(v@[cc * h + r], #[trigger] cell_at(out@, w as int, r as int, cc)),
            decreases w - c,
        {
            proof {
                lemma_cell_index(c as int, r as int, h as int, w as int);
                lemma_cell_index(r as int, c as int, w as int, h as int);
            }
            let x = v[c * h + r].clone();
            let ghost prev = out@;
            out.push(x);
            proof {
                assert forall|rr: int, cc: int|
                    0 <= rr < r && 0 <= cc < w implies cloned(v@[cc * h + rr], #[trigger] cell_at(out@, w as int, rr, cc)) by {
                    lemma_row_before(rr, cc, r as int, w as int);
                    assert(cloned(v@[cc * h + rr], cell_at(prev, w as int, rr, cc)));
                }
                assert forall|cc: int| 0 <= cc < c + 1 implies cloned(v@[cc * h + r], #[trigger] cell_at(out@, w as int, r as int, cc)) by {
                    if cc < c {
                        assert(cloned(v@[cc * h + r], cell_at(prev, w as int, r as int, cc)));
                    }
                }
            }
            c = c + 1;
        }
        proof {
            lemma_next_row(r as int, w as int);
        }
        r = r + 1;
    }
    proof {
        lemma_next_row(h as int, w as int);
    }
    out
}

/// Whether an array of `len` values of type `T` fits the largest allocation
/// Rust allows: at most `isize::MAX` bytes.
pub open spec fn array_fits<T>(len: int) -> bool {
    len * vstd::layout::size_of::<T>() <= isize::MAX
}

/// Whether an array of `len` values of type `T` can be laid out in memory.
fn array_layout_fits<T>(len: usize) -> (b: bool)
    ensures
        b == array_fits::<T>(len as int),
{
    match len.checked_mul(core::mem::size_of::<T>()) {
        Some(bytes) => bytes <= isize::MAX as usize,
        None => false,
    }
}

/// A 2D rectangle stored in host memory in
/// [row-major order](https://en.wikipedia.org/wiki/Row-_and_column-major_order):
/// `height` rows of `width` values, neither dimension zero.
pub struct Rect2D<T> {
    data: Vec<T>,
    width: usize,
    height: usize,
}

impl<T> Rect2D<T> {
    #[verifier::type_invariant]
    spec fn shape_ok(self) -> bool {
        &&& self.width > 0
        &&& self.height > 0
        &&& self.data@.len() == self.width * self.height
    }

    /// Number of values in a row.
    pub closed spec fn spec_width(&self) -> nat {
        self.width as nat
    }

    /// Number of rows.
    pub closed spec fn spec_height(&self) -> nat {
        self.height as nat
    }

    /// All values, row after row.
    pub closed spec fn cells(&self) -> Seq<T> {
        self.data@
    }

    /// The value at row `row`, column `col`.
    pub open spec fn cell(&self, row: int, col: int) -> T {
        cell_at(self.cells(), self.spec_width() as int, row, col)
    }

    /// The values of row `row`.
    pub open spec fn row_cells(&self, row: int) -> Seq<T> {
        self.cells().subrange(row * self.spec_width(), row * self.spec_width() + self.spec_width())
    }

    /// Both dimensions are positive and the values fill the rectangle.
    pub open spec fn well_shaped(&self) -> bool {
        &&& self.spec_width() > 0
        &&& self.spec_height() > 0
        &&& self.cells().len() == self.spec_width() * self.spec_height()
    }

    /// Creates a rectangle of rows of `width` values from `v`, read row after
    /// row; values that do not fill a whole row are left out.
    /// Returns `None` when `width` is zero or `v` does not fill one row.
    pub fn new(v: &[T], width: usize) -> (r: Option<Self>)
        where
            T: Copy,
        ensures
            width == 0 || v@.len() / (width as nat) == 0 <==> r is None,
            r matches Some(x) ==> {
                &&& width > 0
                &&& x.well_shaped()
                &&& x.spec_width() == width
                &&& x.spec_height() == v@.len() / (width as nat)
                &&& x.cells() == v@.take(width * (v@.len() / (width as nat)))
            },
    {
        if width == 0 {
            return None;
        }
        let height = v.len() / width;
        if height == 0 {
            return None;
        }
        proof {
            lemma_div_rows(v@.len() as int, width as int);
        }
        let len = width * height;
        let mut data: Vec<T> = Vec::new();
        let mut i: usize = 0;
        while i < len
            invariant
                i <= len,
                len <= v@.len(),
                data@ == v@.take(i as int),
            decreases len - i,
        {
            data.push(v[i]);
            i = i + 1;
            assert(data@ =~= v@.take(i as int));
        }
        Some(Rect2D { data, width, height })
    }

    /// Creates a rectangle of `height` rows from `v`, read column after column;
    /// values that do not fill a whole column are left out.
    /// Returns `None` when `height` is zero or `v` does not fill one column.
    pub fn new_col_major(v: &[T], height: usize) -> (r: Option<Self>)
        where
            T: Copy,
        ensures
            height == 0 || v@.len() / (height as nat) == 0 <==> r is None,
            r matches Some(x) ==> {
                &&& x.well_shaped()
                &&& x.spec_height() == height
                &&& x.spec_width() == v@.len() / (height as nat)
                &&& forall|row: int, col: int|
                    0 <= row < x.spec_height() && 0 <= col < x.spec_width() ==> #[trigger] x.cell(
                        row,
                        col,
                    ) == v@[col * height + row]
            },
    {
        if height == 0 {
            return None;
        }
        let width = v.len() / height;
        if width == 0 {
            return None;
        }
        proof {
            lemma_div_rows(v@.len() as int, height as int);
            assert(width * height == (v@.len() / (height as nat)) * height);
        }
        let data = gather_col_major(v, width, height);
        Some(Rect2D { data, width, height })
    }

    /// Creates a rectangle of `width` by `height` uninitialized values.
    /// Returns `None` when `width * height` is zero or overflows, and when the
    /// values would take more than `isize::MAX` bytes.
    pub fn new_uninit(width: usize, height: usize) -> (r: Option<Rect2D<MaybeUninit<T>>>)
        ensures
            width * height == 0 || width * height > usize::MAX ==> r is None,
            !array_fits::<MaybeUninit<T>>(width * height) ==> r is None,
            0 < width * height <= usize::MAX && array_fits::<MaybeUninit<T>>(width * height) ==> r is Some,
            r matches Some(x) ==> {
                &&& x.well_shaped()
                &&& x.spec_width() == width
                &&& x.spec_height() == height
                &&& forall|i: int| 0 <= i < x.cells().len() ==> (#[trigger] x.cells()[i]).as_option() is None
            },
    {
        let len = match width.checked_mul(height) {
            Some(0) => return None,
            None => return None,
            Some(len) => len,
        };
        if !array_layout_fits::<MaybeUninit<T>>(len) {
            return None;
        }
        let mut data: Vec<MaybeUninit<T>> = Vec::new();
        let mut i: usize = 0;
        while i < len
            invariant
                i <= len,
                data@.len() == i,
                forall|k: int| 0 <= k < i ==> (#[trigger] data@[k]).as_option() is None,
            decreases len - i,
        {
            data.push(MaybeUninit::uninit());
            i = i + 1;
        }
        proof {
            lemma_nonzero_factors(width as int, height as int);
        }
        Some(Rect2D { data, width, height })
    }

    /// Creates a rectangle of `width` by `height` values whose memory is zeroed.
    /// Returns `None` when `width * height` is zero or overflows, and when the
    /// values would take more than `isize::MAX` bytes.
    pub fn new_zeroed(width: usize, height: usize) -> (r: Option<Rect2D<MaybeUninit<T>>>)
        ensures
            width * height == 0 || width * height > usize::MAX ==> r is None,
            !array_fits::<MaybeUninit<T>>(width * height) ==> r is None,
            0 < width * height <= usize::MAX && array_fits::<MaybeUninit<T>>(width * height) ==> r is Some,
            r matches Some(x) ==> {
                &&& x.well_shaped()
                &&& x.spec_width() == width
                &&& x.spec_height() == height
            },
    {
        let len = match width.checked_mul(height) {
            Some(0) => return None,
            None => return None,
            Some(len) => len,
        };
        if !array_layout_fits::<MaybeUninit<T>>(len) {
            return None;
        }
        let mut data: Vec<MaybeUninit<T>> = Vec::new();
        let mut i: usize = 0;
        while i < len
            invariant
                i <= len,
                data@.len() == i,
            decreases len - i,
        {
            data.push(zeroed_value());
            i = i + 1;
        }
        proof {
            lemma_nonzero_factors(width as int, height as int);
        }
        Some(Rect2D { data, width, height })
    }

    /// Number of values in a row.
    pub fn width(&self) -> (w: usize)
        ensures
            w == self.spec_width(),
            self.well_shaped(),
    {
        proof {
            use_type_invariant(self);
        }
        self.width
    }

    /// Number of rows.
    pub fn height(&self) -> (h: usize)
        ensures
            h == self.spec_height(),
            self.well_shaped(),
    {
        proof {
            use_type_invariant(self);
        }
        self.height
    }

    /// Number of values.
    pub fn len(&self) -> (n: usize)
        ensures
            n == self.spec_width() * self.spec_height(),
            n == self.cells().len(),
            self.well_shaped(),
    {
        proof {
            use_type_invariant(self);
        }
        self.data.len()
    }

    /// All values, row after row.
    pub fn as_slice(&self) -> (s: &[T])
        ensures
            s@ == self.cells(),
    {
        self.data.as_slice()
    }

    /// The values, row after row.
    pub fn into_vec(self) -> (v: Vec<T>)
        ensures
            v@ == self.cells(),
    {
        self.data
    }

    /// The value at row `row`, column `col`, or `None` outside the rectangle.
    pub fn get(&self, row: usize, col: usize) -> (r: Option<&T>)
        ensures
            row < self.spec_height() && col < self.spec_width() ==> (r matches Some(x) && *x
                == self.cell(row as int, col as int)),
            !(row < self.spec_height() && col < self.spec_width()) ==> r is None,
    {
        proof {
            use_type_invariant(self);
        }
        if row >= self.height || col >= self.width {
            return None;
        }
        Some(self.get_unchecked(col, row))
    }

    /// A copy of the value at row `row`, column `col`, or `None` outside the rectangle.
    pub fn get_copy(&self, row: usize, col: usize) -> (r: Option<T>)
        where
            T: Copy,
        ensures
            row < self.spec_height() && col < self.spec_width() ==> r == Some(
                self.cell(row as int, col as int),
            ),
            !(row < self.spec_height() && col < self.spec_width()) ==> r is None,
    {
        proof {
            use_type_invariant(self);
        }
        if row >= self.height || col >= self.width {
            return None;
        }
        Some(self.get_unchecked_copy(col, row))
    }

    /// The values of row `idx`, or `None` when there is no such row.
    pub fn get_row(&self, idx: usize) -> (r: Option<&[T]>)
        ensures
            idx < self.spec_height() ==> (r matches Some(x) && x@ == self.row_cells(idx as int)),
            idx >= self.spec_height() ==> r is None,
    {
        proof {
            use_type_invariant(self);
        }
        if idx >= self.height {
            return None;
        }
        Some(self.get_row_unckecked(idx))
    }

    /// The value in column `x` of row `y`.
    pub fn get_unchecked(&self, x: usize, y: usize) -> (r: &T)
        requires
            x < self.spec_width(),
            y < self.spec_height(),
        ensures
            *r == self.cell(y as int, x as int),
    {
        proof {
            use_type_invariant(self);
            lemma_cell_index(y as int, x as int, self.width as int, self.height as int);
        }
        let _n = self.data.len();
        &self.data[y * self.width + x]
    }

    /// A copy of the value in column `x` of row `y`.
    pub fn get_unchecked_copy(&self, x: usize, y: usize) -> (r: T)
        where
            T: Copy,
        requires
            x < self.spec_width(),
            y < self.spec_height(),
        ensures
            r == self.cell(y as int, x as int),
    {
        proof {
            use_type_invariant(self);
            lemma_cell_index(y as int, x as int, self.width as int, self.height as int);
        }
        let _n = self.data.len();
        self.data[y * self.width + x]
    }

    /// The values of row `y`.
    pub fn get_row_unckecked(&self, y: usize) -> (r: &[T])
        requires
            y < self.spec_height(),
        ensures
            r@ == self.row_cells(y as int),
    {
        proof {
            use_type_invariant(self);
            lemma_cell_index(y as int, 0, self.width as int, self.height as int);
        }
        let _n = self.data.len();
        let start = y * self.width;
        slice_subrange(self.data.as_slice(), start, start + self.width)
    }

    /// The transposed rectangle: its rows are the columns of `self`.
    pub fn transpose(&self) -> (t: Self)
        where
            T: Copy,
        ensures
            t.well_shaped(),
            t.spec_width() == self.spec_height(),
            t.spec_height() == self.spec_width(),
            forall|row: int, col: int|
                0 <= row < t.spec_height() && 0 <= col < t.spec_width() ==> #[trigger] t.cell(
                    row,
                    col,
                ) == self.cell(col, row),
    {
        proof {
            use_type_invariant(self);
            lemma_next_row(self.width as int, self.height as int);
        }
        let data = gather_col_major(self.data.as_slice(), self.height, self.width);
        let t = Rect2D { data, width: self.height, height: self.width };
        proof {
            assert forall|row: int, col: int|
                0 <= row < t.spec_height() && 0 <= col < t.spec_width() implies #[trigger] t.cell(
                    row,
                    col,
                ) == self.cell(col, row) by {
                assert(cell_at(t.data@, self.height as int, row, col) == self.data@[col * self.width + row]);
            }
        }
        t
    }

    /// The transposed rectangle, made of clones of the cells: the value at
    /// row `r` and column `c` is a clone of the one at row `c` and column `r`.
    pub fn transpose_clone(&self) -> (t: Self)
        where
            T: Clone,
        ensures
            t.well_shaped(),
            t.spec_width() == self.spec_height(),
            t.spec_height() == self.spec_width(),
            forall|row: int, col: int|
                0 <= row < t.spec_height() && 0 <= col < t.spec_width() ==> cloned(
                    self.cell(col, row),
                    #[trigger] t.cell(row, col),
                ),
    {
        proof {
            use_type_invariant(self);
            lemma_next_row(self.width as int, self.height as int);
        }
        let data = gather_col_major_cloned(self.data.as_slice(), self.height, self.width);
        let t = Rect2D { data, width: self.height, height: self.width };
        proof {
            assert forall|row: int, col: int|
                0 <= row < t.spec_height() && 0 <= col < t.spec_width() implies cloned(
                    self.cell(col, row),
                    #[trigger] t.cell(row, col),
                ) by {
                assert(cloned(self.data@[col * self.width + row], cell_at(t.data@, self.height as int, row, col)));
            }
        }
        t
    }

    /// The value at column `x`, row `y`, to change in place.
    pub fn get_unchecked_mut(&mut self, x: usize, y: usize) -> (r: &mut T)
        requires
            x < old(self).spec_width(),
            y < old(self).spec_height(),
        ensures
            *r == old(self).cell(y as int, x as int),
            final(self).spec_width() == old(self).spec_width(),
            final(self).spec_height() == old(self).spec_height(),
            final(self).cells() == old(self).cells().update(y * old(self).spec_width() + x, *final(r)),
    {
        proof {
            use_type_invariant(&*self);
            lemma_cell_index(y as int, x as int, self.width as int, self.height as int);
        }
        let n = self.data.len();
        assert(y * self.width + x < n);
        let idx = y * self.width + x;
        &mut self.data[idx]
    }

    /// The value at row `row`, column `col`, to change in place; `None` outside
    /// the rectangle.
    pub fn get_mut(&mut self, row: usize, col: usize) -> (r: Option<&mut T>)
        ensures
            final(self).spec_width() == old(self).spec_width(),
            final(self).spec_height() == old(self).spec_height(),
            row < old(self).spec_height() && col < old(self).spec_width() ==> (r matches Some(x) && *x
                == old(self).cell(row as int, col as int) && final(self).cells() == old(self).cells().update(
                row * old(self).spec_width() + col,
                *final(x),
            )),
            !(row < old(self).spec_height() && col < old(self).spec_width()) ==> r is None
                && final(self).cells() == old(self).cells(),
    {
        proof {
            use_type_invariant(&*self);
        }
        if row >= self.height || col >= self.width {
            return None;
        }
        Some(self.get_unchecked_mut(col, row))
    }

    /// An iterator over the rows.
    pub fn rows_iter(&self) -> (it: Rows<'_, T>)
        ensures
            it.source() == *self,
            it.position() == 0,
    {
        Rows { inner: self, idx: 0 }
    }

    /// An iterator over the rows.
    pub fn rows(&self) -> (it: Rows<'_, T>)
        ensures
            it.source() == *self,
            it.position() == 0,
    {
        self.rows_iter()
    }

    /// An iterator over the rows that may change them.
    pub fn rows_iter_mut(&mut self) -> (it: RowsMut<'_, T>)
        ensures
            it.position() == 0,
            it.height() == old(self).spec_height(),
    {
        proof {
            use_type_invariant(&*self);
        }
        let height = self.height;
        RowsMut { inner: self, idx: 0, height }
    }

    /// An iterator over the columns.
    pub fn cols_iter(&self) -> (it: Cols<'_, T>)
        ensures
            it.source() == *self,
            it.position() == 0,
    {
        Cols { inner: self, idx: 0 }
    }
}

/// Iterator over the rows of a [`Rect2D`].
pub struct Rows<'a, T> {
    inner: &'a Rect2D<T>,
    idx: usize,
}

impl<'a, T> Rows<'a, T> {
    #[verifier::type_invariant]
    spec fn rows_ok(self) -> bool {
        self.idx <= self.inner.spec_height()
    }

    /// The rectangle whose rows are visited.
    pub closed spec fn source(&self) -> Rect2D<T> {
        *self.inner
    }

    /// Index of the next row.
    pub closed spec fn position(&self) -> nat {
        self.idx as nat
    }

    /// The next row, if any is left.
    pub fn next(&mut self) -> (r: Option<&'a [T]>)
        ensures
            final(self).source() == old(self).source(),
            old(self).position() < old(self).source().spec_height() ==> {
                &&& r matches Some(x) && x@ == old(self).source().row_cells(old(self).position() as int)
                &&& final(self).position() == old(self).position() + 1
            },
            old(self).position() >= old(self).source().spec_height() ==> r is None && final(self).position() == old(self).position(),
            final(self).position() == rows_step(old(self).position(), old(self).source().spec_height()),
    {
        let inner: &'a Rect2D<T> = self.inner;
        match inner.get_row(self.idx) {
            Some(v) => {
                self.idx = self.idx + 1;
                Some(v)
            },
            None => None,
        }
    }

    /// Number of rows left.
    pub fn len(&self) -> (n: usize)
        ensures
            n == self.source().spec_height() - self.position(),
    {
        proof {
            use_type_invariant(self);
        }
        self.inner.height() - self.idx
    }
}

/// The position of a row iterator over `n` rows after one call of `next`
/// from position `pos`: one row further, until the rows run out.
pub open spec fn rows_step(pos: nat, n: nat) -> nat {
    if pos < n {
        pos + 1
    } else {
        pos
    }
}

/// The position of a row iterator over `n` rows after `k` calls of `next`
/// from the first row.
pub open spec fn rows_after(k: nat, n: nat) -> nat
    decreases k,
{
    if k == 0 {
        0
    } else {
        rows_step(rows_after((k - 1) as nat, n), n)
    }
}

/// After `k` calls of `next` on the rows of a rectangle of `n` rows, any `k`,
/// `n - k` rows are left, none once `k` reaches `n`; from then on `next` gives
/// nothing.
pub proof fn law_rows_count_down(k: nat, n: nat)
    ensures
        rows_after(k, n) == (if k <= n { k } else { n }),
        n - rows_after(k, n) == (if k >= n { 0 } else { n - k }),
        k >= n ==> rows_after(k, n) >= n,
    decreases k,
{
    if k > 0 {
        law_rows_count_down((k - 1) as nat, n);
    }
}

/// Iterator over the rows of a [`Rect2D`] that may change them.
pub struct RowsMut<'a, T> {
    inner: &'a mut Rect2D<T>,
    idx: usize,
    height: usize,
}

impl<'a, T> RowsMut<'a, T> {
    /// Index of the next row.
    pub closed spec fn position(&self) -> nat {
        self.idx as nat
    }

    /// Number of rows of the rectangle.
    pub closed spec fn height(&self) -> nat {
        self.height as nat
    }

    /// Number of rows left.
    pub fn len(&self) -> (n: usize)
        requires
            self.position() <= self.height(),
        ensures
            n == self.height() - self.position(),
    {
        self.height - self.idx
    }
}

/// Iterator over the columns of a [`Rect2D`].
pub struct Cols<'a, T> {
    inner: &'a Rect2D<T>,
    idx: usize,
}

impl<'a, T> Cols<'a, T> {
    #[verifier::type_invariant]
    spec fn cols_ok(self) -> bool {
        self.idx <= self.inner.spec_width()
    }

    /// The rectangle whose columns are visited.
    pub closed spec fn source(&self) -> Rect2D<T> {
        *self.inner
    }

    /// Index of the next column.
    pub closed spec fn position(&self) -> nat {
        self.idx as nat
    }

    /// The next column, if any is left.
    pub fn next(&mut self) -> (r: Option<Col<'a, T>>)
        ensures
            final(self).source() == old(self).source(),
            old(self).position() < old(self).source().spec_width() ==> {
                &&& r matches Some(c) && c.source() == old(self).source() && c.column()
                    == old(self).position() && c.position() == 0
                &&& final(self).position() == old(self).position() + 1
            },
            old(self).position() >= old(self).source().spec_width() ==> r is None && final(self).position() == old(self).position(),
    {
        proof {
            use_type_invariant(&*self);
        }
        let inner: &'a Rect2D<T> = self.inner;
        if self.idx >= inner.width() {
            return None;
        }
        let col = Col { inner, row: self.idx, idx: 0 };
        self.idx = self.idx + 1;
        Some(col)
    }

    /// Number of columns left.
    pub fn len(&self) -> (n: usize)
        ensures
            n == self.source().spec_width() - self.position(),
    {
        proof {
            use_type_invariant(self);
        }
        self.inner.width() - self.idx
    }
}

/// Iterator over the values of one column of a [`Rect2D`], top to bottom.
pub struct Col<'a, T> {
    inner: &'a Rect2D<T>,
    row: usize,
    idx: usize,
}

impl<'a, T> Col<'a, T> {
    #[verifier::type_invariant]
    spec fn col_ok(self) -> bool {
        self.row < self.inner.spec_width() && self.idx <= self.inner.spec_height()
    }

    /// The rectangle the column belongs to.
    pub closed spec fn source(&self) -> Rect2D<T> {
        *self.inner
    }

    /// Index of the column.
    pub closed spec fn column(&self) -> nat {
        self.row as nat
    }

    /// Row of the next value.
    pub closed spec fn position(&self) -> nat {
        self.idx as nat
    }

    /// The next value of the column, if any is left.
    pub fn next(&mut self) -> (r: Option<&'a T>)
        ensures
            final(self).source() == old(self).source(),
            final(self).column() == old(self).column(),
            old(self).position() < old(self).source().spec_height() ==> {
                &&& r matches Some(x) && *x == old(self).source().cell(
                    old(self).position() as int,
                    old(self).column() as int,
                )
                &&& final(self).position() == old(self).position() + 1
            },
            old(self).position() >= old(self).source().spec_height() ==> r is None && final(self).position() == old(self).position(),
    {
        proof {
            use_type_invariant(&*self);
        }
        let inner: &'a Rect2D<T> = self.inner;
        match inner.get(self.idx, self.row) {
            Some(v) => {
                self.idx = self.idx + 1;
                Some(v)
            },
            None => None,
        }
    }

    /// The value `index` rows below the next one.
    pub fn index(&self, index: usize) -> (r: &'a T)
        requires
            self.position() + index < self.source().spec_height(),
        ensures
            *r == self.source().cell(self.position() + index, self.column() as int),
    {
        proof {
            use_type_invariant(self);
        }
        let inner: &'a Rect2D<T> = self.inner;
        inner.get_unchecked(self.row, self.idx + index)
    }

    /// Number of values left.
    pub fn len(&self) -> (n: usize)
        ensures
            n == self.source().spec_height() - self.position(),
    {
        proof {
            use_type_invariant(self);
        }
        self.inner.height() - self.idx
    }
}

/// A value whose memory is all zero bytes.
#[verifier::external_body]
fn zeroed_value<T>() -> MaybeUninit<T> {
    MaybeUninit::zeroed()
}

/// Whether `t` is the transpose of `r`, as [`Rect2D::transpose`] promises:
/// the dimensions swapped, and the value at row `i`, column `j` of `t` is the
/// one at row `j`, column `i` of `r`.
pub open spec fn is_transpose<T>(t: Rect2D<T>, r: Rect2D<T>) -> bool {
    &&& t.well_shaped()
    &&& t.spec_width() == r.spec_height()
    &&& t.spec_height() == r.spec_width()
    &&& forall|row: int, col: int|
        0 <= row < t.spec_height() && 0 <= col < t.spec_width() ==> #[trigger] t.cell(row, col)
            == r.cell(col, row)
}

proof fn lemma_split_index(i: int, w: int, h: int)
    by (nonlinear_arith)
    requires
        w > 0,
        0 <= i < w * h,
    ensures
        0 <= i / w < h,
        0 <= i % w < w,
        (i / w) * w + i % w == i,
{
}

/// Transposing twice gives the rectangle back: the same dimensions, and the
/// same values in the same places.
pub proof fn law_transpose_twice<T>(r: Rect2D<T>, t: Rect2D<T>, u: Rect2D<T>)
    requires
        r.well_shaped(),
        is_transpose(t, r),
        is_transpose(u, t),
    ensures
        u.spec_width() == r.spec_width(),
        u.spec_height() == r.spec_height(),
        u.cells() == r.cells(),
{
    let w = r.spec_width() as int;
    let h = r.spec_height() as int;
    assert forall|i: int| 0 <= i < r.cells().len() implies u.cells()[i] == r.cells()[i] by {
        lemma_split_index(i, w, h);
        let row = i / w;
        let col = i % w;
        assert(u.cell(row, col) == t.cell(col, row));
        assert(t.cell(col, row) == r.cell(row, col));
    }
    assert(u.cells() =~= r.cells());
}

} // verus!
