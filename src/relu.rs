use vstd::prelude::*;

use crate::error::LayerError;
use crate::matrix::{copy_vec, gated, Matrix};

verus! {

/// A rectified-linear activation. It has no parameters; it keeps the output of
/// the most recent forward pass, together with the mask of its strictly
/// positive entries, for the backward pass that follows.
pub struct ReLU<T> {
    cache_forward: Option<Matrix<T>>,
    positive: Vec<bool>,
}

/// Forward keeps each input entry marked positive and zeroes the others; backward,
/// gated by the same marks, passes the upstream gradient where the entry was kept
/// and zeroes it where the entry was zeroed.
pub proof fn lemma_relu_gating<T>(input: Seq<T>, positive: Seq<bool>, grad_output: Seq<T>, zero: T)
    requires
        positive.len() == input.len(),
        grad_output.len() == input.len(),
    ensures
        gated(input, positive, zero).len() == input.len(),
        gated(grad_output, positive, zero).len() == input.len(),
        forall|k: int|
            0 <= k < input.len() && positive[k] ==> gated(input, positive, zero)[k] == input[k]
                && gated(grad_output, positive, zero)[k] == grad_output[k],
        forall|k: int|
            0 <= k < input.len() && !positive[k] ==> gated(input, positive, zero)[k] == zero
                && gated(grad_output, positive, zero)[k] == zero,
{
}

impl<T> ReLU<T> {
    #[verifier::type_invariant]
    spec fn inv(&self) -> bool {
        self.wf()
    }

    /// The output of the most recent forward pass, if any.
    pub closed spec fn cache_spec(&self) -> Option<Matrix<T>> {
        self.cache_forward
    }

    /// Where the cached output is strictly positive.
    pub closed spec fn mask_spec(&self) -> Seq<bool> {
        self.positive@
    }

    /// The mask has one entry per cached element.
    pub open spec fn wf(&self) -> bool {
        self.cache_spec() matches Some(c) ==> c.wf() && self.mask_spec().len() == c.elems().len()
    }

    /// A layer with nothing cached.
    pub fn new() -> (r: ReLU<T>)
        ensures
            r.cache_spec() is None,
    {
        ReLU { cache_forward: None, positive: Vec::new() }
    }

    /// The output of the most recent forward pass, if any.
    pub fn cache_forward(&self) -> (r: &Option<Matrix<T>>)
        ensures
            *r == self.cache_spec(),
    {
        &self.cache_forward
    }
}

impl<T: Copy> ReLU<T> {
    /// The rectified `input`: each element where `positive` holds is kept, every
    /// other one becomes `zero`. `positive[k]` tells whether element `k` (row
    /// after row) is strictly greater than zero, so the output keeps positive
    /// entries and zeroes the others. The output and its mask are cached in place
    /// of earlier ones. A mask of another length is refused with
    /// `ShapeMismatch` and leaves the layer as it was.
    pub fn forward(&mut self, input: &Matrix<T>, positive: &Vec<bool>, zero: T) -> (r: Result<
        Matrix<T>,
        LayerError,
    >)
        ensures
            r is Ok <==> positive@.len() == input.elems().len(),
            r is Err ==> r == Err::<Matrix<T>, LayerError>(LayerError::ShapeMismatch)
                && *final(self) == *old(self),
            r matches Ok(out) ==> {
                &&& out.wf()
                &&& out.same_shape(input)
                &&& out.elems() == gated(input.elems(), positive@, zero)
                &&& final(self).cache_spec() matches Some(c)
                &&& c.same_shape(input)
                &&& c.elems() == out.elems()
                &&& final(self).mask_spec() == positive@
            },
    {
        if positive.len() != input.as_vec().len() {
            return Err(LayerError::ShapeMismatch);
        }
        let out = input.gate(positive, zero);
        *self = ReLU { cache_forward: Some(out.copy()), positive: copy_vec(positive) };
        Ok(out)
    }

    /// The gradient of the input: `grad_output` where the cached output is
    /// strictly positive, `zero` elsewhere. Refused with `InvalidState` before
    /// any forward pass, and with `ShapeMismatch` when `grad_output` does not
    /// have the cached output's shape.
    pub fn backward(&self, grad_output: &Matrix<T>, zero: T) -> (r: Result<Matrix<T>, LayerError>)
        ensures
            self.cache_spec() is None ==> r == Err::<Matrix<T>, LayerError>(
                LayerError::InvalidState,
            ),
            self.cache_spec() matches Some(c) ==> (r is Ok <==> grad_output.same_shape(&c)),
            self.cache_spec() is Some && r is Err ==> r == Err::<Matrix<T>, LayerError>(
                LayerError::ShapeMismatch,
            ),
            r matches Ok(g) ==> {
                &&& g.wf()
                &&& g.same_shape(grad_output)
                &&& g.elems() == gated(grad_output.elems(), self.mask_spec(), zero)
            },
    {
        proof {
            use_type_invariant(self);
        }
        match &self.cache_forward {
            None => Err(LayerError::InvalidState),
            Some(c) => {
                let (rows, cols) = grad_output.shape();
                if rows != c.rows() || cols != c.cols() {
                    Err(LayerError::ShapeMismatch)
                } else {
                    proof {
                        assert(grad_output.elems().len() == c.elems().len());
                    }
                    Ok(grad_output.gate(&self.positive, zero))
                }
            },
        }
    }
}

} // verus!
