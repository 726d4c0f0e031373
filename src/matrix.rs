use vstd::prelude::*;

use crate::error::LayerError;

verus! {

/// A dense row-major matrix whose element type is left to the caller.
pub struct Matrix<T> {
    rows: usize,
    cols: usize,
    data: Vec<T>,
}

/// Keeps `values[k]` where `mask[k]` holds and puts `zero` everywhere else.
pub open spec fn gated<T>(values: Seq<T>, mask: Seq<bool>, zero: T) -> Seq<T>
    recommends
        values.len() == mask.len(),
{
    Seq::new(values.len(), |k: int| if mask[k] { values[k] } else { zero })
}

impl<T> Matrix<T> {
    #[verifier::type_invariant]
    spec fn inv(&self) -> bool {
        self.data@.len() == self.rows * self.cols
    }

    /// Number of rows.
    pub closed spec fn nrows(&self) -> nat {
        self.rows as nat
    }

    /// Number of columns.
    pub closed spec fn ncols(&self) -> nat {
        self.cols as nat
    }

    /// The elements, row after row.
    pub closed spec fn elems(&self) -> Seq<T> {
        self.data@
    }

    /// Holds `nrows() * ncols()` elements.
    pub open spec fn wf(&self) -> bool {
        self.elems().len() == self.nrows() * self.ncols()
    }

    /// The element in row `i` and column `j`.
    pub open spec fn at(&self, i: int, j: int) -> T {
        self.elems()[i * self.ncols() + j]
    }

    /// Same number of rows and columns as `other`.
    pub open spec fn same_shape<U>(&self, other: &Matrix<U>) -> bool {
        self.nrows() == other.nrows() && self.ncols() == other.ncols()
    }

    /// Builds a `rows` by `cols` matrix from its elements laid out row after row.
    pub fn from_vec(rows: usize, cols: usize, data: Vec<T>) -> (r: Result<Matrix<T>, LayerError>)
        ensures
            r is Ok <==> data@.len() == rows * cols,
            r is Err ==> r == Err::<Matrix<T>, LayerError>(LayerError::ShapeMismatch),
            r matches Ok(m) ==> m.wf() && m.nrows() == rows && m.ncols() == cols && m.elems()
                == data@,
    {
        let len = data.len();
        match rows.checked_mul(cols) {
            Some(n) => {
                if len == n {
                    Ok(Matrix { rows, cols, data })
                } else {
                    Err(LayerError::ShapeMismatch)
                }
            },
            None => Err(LayerError::ShapeMismatch),
        }
    }

    /// Number of rows.
    pub fn rows(&self) -> (r: usize)
        ensures
            r == self.nrows(),
            self.wf(),
    {
        proof {
            use_type_invariant(self);
        }
        self.rows
    }

    /// Number of columns.
    pub fn cols(&self) -> (r: usize)
        ensures
            r == self.ncols(),
            self.wf(),
    {
        proof {
            use_type_invariant(self);
        }
        self.cols
    }

    /// The pair (rows, columns).
    pub fn shape(&self) -> (r: (usize, usize))
        ensures
            r.0 == self.nrows(),
            r.1 == self.ncols(),
            self.wf(),
    {
        proof {
            use_type_invariant(self);
        }
        (self.rows, self.cols)
    }

    /// The elements, row after row.
    pub fn as_vec(&self) -> (r: &Vec<T>)
        ensures
            r@ == self.elems(),
            self.wf(),
    {
        proof {
            use_type_invariant(self);
        }
        &self.data
    }

    /// Gives up the matrix for its elements, row after row.
    pub fn into_vec(self) -> (r: Vec<T>)
        ensures
            r@ == self.elems(),
    {
        self.data
    }
}

impl<T: Copy> Matrix<T> {
    /// A `rows` by `cols` matrix with every element equal to `value`.
    pub fn filled(rows: usize, cols: usize, value: T) -> (r: Matrix<T>)
        requires
            rows * cols <= usize::MAX,
        ensures
            r.wf(),
            r.nrows() == rows,
            r.ncols() == cols,
            r.elems() == Seq::new((rows * cols) as nat, |k: int| value),
    {
        let n = rows * cols;
        let data = filled_vec(n, value);
        Matrix { rows, cols, data }
    }

    /// The element in row `i` and column `j`.
    pub fn get(&self, i: usize, j: usize) -> (r: T)
        requires
            i < self.nrows(),
            j < self.ncols(),
        ensures
            r == self.at(i as int, j as int),
    {
        let len = self.data.len();
        proof {
            use_type_invariant(self);
            assert(i * self.cols + j < self.rows * self.cols) by (nonlinear_arith)
                requires
                    i < self.rows,
                    j < self.cols,
            ;
        }
        self.data[i * self.cols + j]
    }

    /// An element-for-element copy.
    pub fn copy(&self) -> (r: Matrix<T>)
        ensures
            r.nrows() == self.nrows(),
            r.ncols() == self.ncols(),
            r.elems() == self.elems(),
            r.wf(),
    {
        proof {
            use_type_invariant(self);
        }
        Matrix { rows: self.rows, cols: self.cols, data: copy_vec(&self.data) }
    }

    /// A matrix of this shape that keeps the elements where `mask` holds and
    /// has `zero` everywhere else.
    pub fn gate(&self, mask: &Vec<bool>, zero: T) -> (r: Matrix<T>)
        requires
            mask@.len() == self.elems().len(),
        ensures
            r.nrows() == self.nrows(),
            r.ncols() == self.ncols(),
            r.elems() == gated(self.elems(), mask@, zero),
            r.wf(),
    {
        proof {
            use_type_invariant(self);
        }
        let mut data: Vec<T> = Vec::new();
        let n = self.data.len();
        let mut k: usize = 0;
        while k < n
            invariant
                n == self.data@.len(),
                mask@.len() == n,
                k <= n,
                data@ == gated(self.data@, mask@, zero).take(k as int),
            decreases n - k,
        {
            if mask[k] {
                data.push(self.data[k]);
            } else {
                data.push(zero);
            }
            k = k + 1;
            assert(data@ =~= gated(self.data@, mask@, zero).take(k as int));
        }
        assert(data@ =~= gated(self.data@, mask@, zero));
        Matrix { rows: self.rows, cols: self.cols, data }
    }
}

/// A vector of `n` copies of `value`.
pub fn filled_vec<T: Copy>(n: usize, value: T) -> (r: Vec<T>)
    ensures
        r@ == Seq::new(n as nat, |k: int| value),
{
    let mut v: Vec<T> = Vec::new();
    let mut k: usize = 0;
    while k < n
        invariant
            k <= n,
            v@ == Seq::new(k as nat, |i: int| value),
        decreases n - k,
    {
        v.push(value);
        k = k + 1;
        assert(v@ =~= Seq::new(k as nat, |i: int| value));
    }
    v
}

/// An element-for-element copy of `v`.
pub fn copy_vec<T: Copy>(v: &Vec<T>) -> (r: Vec<T>)
    ensures
        r@ == v@,
{
    let mut out: Vec<T> = Vec::new();
    let n = v.len();
    let mut k: usize = 0;
    while k < n
        invariant
            n == v@.len(),
            k <= n,
            out@ == v@.take(k as int),
        decreases n - k,
    {
        out.push(v[k]);
        k = k + 1;
        assert(out@ =~= v@.take(k as int));
    }
    assert(out@ =~= v@);
    out
}

} // verus!
