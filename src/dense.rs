use vstd::prelude::*;

use crate::error::LayerError;
use crate::matrix::{filled_vec, Matrix};

verus! {

/// A fully connected layer: `weights` is `input_size` by `output_size`, `biases`
/// has `output_size` entries. Forward evaluation `input · weights + biases` and the
/// gradient products are computed by the caller's numeric backend; this type
/// decides which operations may run, on which shapes, and keeps the caches
/// that tie a forward pass to the backward pass and the update that follow.
pub struct Dense<T> {
    input_size: usize,
    output_size: usize,
    weights: Matrix<T>,
    biases: Vec<T>,
    input_cache: Option<Matrix<T>>,
    grad_weights_cache: Option<Matrix<T>>,
    grad_biases_cache: Option<Vec<T>>,
}

/// After a forward pass on a batch of `b` rows, an upstream gradient of `b` rows
/// by `output_size` columns is accepted by the backward pass, one of any other
/// shape is refused, and the input gradient has the batch's shape, `b` rows by
/// `input_size` columns.
pub proof fn lemma_backward_shape<T>(layer: Dense<T>, input: Matrix<T>, grad_output: Matrix<T>)
    requires
        layer.wf(),
        layer.input_cache_spec() matches Some(c) && c.same_shape(&input),
    ensures
        layer.input_cache_spec() matches Some(c) && (layer.accepts_grad_output(c, &grad_output)
            <==> (grad_output.nrows() == input.nrows() && grad_output.ncols()
            == layer.out_size())),
        input.ncols() == layer.in_size(),
        input.nrows() > 0,
{
}

impl<T> Dense<T> {
    #[verifier::type_invariant]
    spec fn inv(&self) -> bool {
        self.wf()
    }

    /// Entries per input row.
    pub closed spec fn in_size(&self) -> nat {
        self.input_size as nat
    }

    /// Entries per output row.
    pub closed spec fn out_size(&self) -> nat {
        self.output_size as nat
    }

    /// The weight matrix, `input_size` by `output_size`.
    pub closed spec fn weights_spec(&self) -> Matrix<T> {
        self.weights
    }

    /// The bias vector, one entry per output.
    pub closed spec fn biases_spec(&self) -> Seq<T> {
        self.biases@
    }

    /// The input of the most recent forward pass, if any.
    pub closed spec fn input_cache_spec(&self) -> Option<Matrix<T>> {
        self.input_cache
    }

    /// The weight gradient of the most recent backward pass, if any.
    pub closed spec fn grad_weights_spec(&self) -> Option<Matrix<T>> {
        self.grad_weights_cache
    }

    /// The bias gradient of the most recent backward pass, if any.
    pub closed spec fn grad_biases_spec(&self) -> Option<Seq<T>> {
        match self.grad_biases_cache {
            Some(b) => Some(b@),
            None => None,
        }
    }

    /// A matrix of `input_size` rows and `output_size` columns.
    pub open spec fn fits_weights(&self, m: Matrix<T>) -> bool {
        m.wf() && m.nrows() == self.in_size() && m.ncols() == self.out_size()
    }

    /// The shapes of the layer and of every cache agree.
    pub open spec fn wf(&self) -> bool {
        &&& self.in_size() > 0
        &&& self.out_size() > 0
        &&& self.fits_weights(self.weights_spec())
        &&& self.biases_spec().len() == self.out_size()
        &&& (self.input_cache_spec() matches Some(c) ==> c.wf() && c.ncols() == self.in_size()
            && c.nrows() > 0)
        &&& (self.grad_weights_spec() matches Some(g) ==> self.fits_weights(g))
        &&& (self.grad_biases_spec() matches Some(g) ==> g.len() == self.out_size())
    }

    /// The weights, biases and sizes are those of `other`.
    pub open spec fn same_parameters(&self, other: &Dense<T>) -> bool {
        &&& self.in_size() == other.in_size()
        &&& self.out_size() == other.out_size()
        &&& self.weights_spec() == other.weights_spec()
        &&& self.biases_spec() == other.biases_spec()
    }

    /// The three caches are those of `other`.
    pub open spec fn same_caches(&self, other: &Dense<T>) -> bool {
        &&& self.input_cache_spec() == other.input_cache_spec()
        &&& self.grad_weights_spec() == other.grad_weights_spec()
        &&& self.grad_biases_spec() == other.grad_biases_spec()
    }

    /// A batch whose rows fit the layer's input.
    pub open spec fn accepts_input(&self, input: &Matrix<T>) -> bool {
        input.ncols() == self.in_size() && input.nrows() > 0
    }

    /// An upstream gradient with one row per cached input row and one column
    /// per output.
    pub open spec fn accepts_grad_output(&self, cached: Matrix<T>, grad: &Matrix<T>) -> bool {
        grad.nrows() == cached.nrows() && grad.ncols() == self.out_size()
    }

    /// Entries per input row.
    pub fn input_size(&self) -> (r: usize)
        ensures
            r == self.in_size(),
    {
        self.input_size
    }

    /// Entries per output row.
    pub fn output_size(&self) -> (r: usize)
        ensures
            r == self.out_size(),
    {
        self.output_size
    }

    /// The weight matrix.
    pub fn weights(&self) -> (r: &Matrix<T>)
        ensures
            *r == self.weights_spec(),
    {
        &self.weights
    }

    /// The bias vector.
    pub fn biases(&self) -> (r: &Vec<T>)
        ensures
            r@ == self.biases_spec(),
    {
        &self.biases
    }

    /// The input of the most recent forward pass, if any.
    pub fn input_cache(&self) -> (r: &Option<Matrix<T>>)
        ensures
            *r == self.input_cache_spec(),
    {
        &self.input_cache
    }

    /// The weight gradient of the most recent backward pass, if any.
    pub fn grad_weights_cache(&self) -> (r: &Option<Matrix<T>>)
        ensures
            *r == self.grad_weights_spec(),
    {
        &self.grad_weights_cache
    }

    /// The bias gradient of the most recent backward pass, if any.
    pub fn grad_biases_cache(&self) -> (r: Option<&Vec<T>>)
        ensures
            r is Some <==> self.grad_biases_spec() is Some,
            r matches Some(b) ==> self.grad_biases_spec() == Some(b@),
    {
        match &self.grad_biases_cache {
            Some(b) => Some(b),
            None => None,
        }
    }
}

impl<T: Copy> Dense<T> {
    /// A layer of the given sizes whose weights are `samples`, laid out row after
    /// row, and whose biases are all `zero`; no cache is set. The samples are
    /// meant to be drawn uniformly from `[-limit, limit]`, with `limit` the square
    /// root of `6 / (input_size + output_size)`.
    pub fn new(input_size: usize, output_size: usize, samples: Vec<T>, zero: T) -> (r: Result<
        Dense<T>,
        LayerError,
    >)
        ensures
            r is Ok <==> (input_size > 0 && output_size > 0 && samples@.len() == input_size
                * output_size),
            (input_size == 0 || output_size == 0) <==> r == Err::<Dense<T>, LayerError>(
                LayerError::InvalidConstruction,
            ),
            (input_size > 0 && output_size > 0 && samples@.len() != input_size * output_size)
                <==> r == Err::<Dense<T>, LayerError>(LayerError::ShapeMismatch),
            r matches Ok(d) ==> {
                &&& d.wf()
                &&& d.in_size() == input_size
                &&& d.out_size() == output_size
                &&& d.weights_spec().elems() == samples@
                &&& d.biases_spec() == Seq::new(output_size as nat, |k: int| zero)
                &&& d.input_cache_spec() is None
                &&& d.grad_weights_spec() is None
                &&& d.grad_biases_spec() is None
            },
    {
        if input_size == 0 || output_size == 0 {
            return Err(LayerError::InvalidConstruction);
        }
        let weights = match Matrix::from_vec(input_size, output_size, samples) {
            Ok(m) => m,
            Err(e) => {
                return Err(e);
            },
        };
        let biases = filled_vec(output_size, zero);
        Ok(
            Dense {
                input_size,
                output_size,
                weights,
                biases,
                input_cache: None,
                grad_weights_cache: None,
                grad_biases_cache: None,
            },
        )
    }

    /// Replaces the weights with `weights`, which must be `input_size` by
    /// `output_size`.
    pub fn set_weights(&mut self, weights: Matrix<T>) -> (r: Result<(), LayerError>)
        ensures
            final(self).wf(),
            r is Ok <==> old(self).fits_weights(weights),
            r is Err ==> r == Err::<(), LayerError>(LayerError::ShapeMismatch) && *final(self)
                == *old(self),
            r is Ok ==> final(self).weights_spec() == weights,
            final(self).in_size() == old(self).in_size(),
            final(self).out_size() == old(self).out_size(),
            final(self).biases_spec() == old(self).biases_spec(),
            final(self).same_caches(old(self)),
    {
        proof {
            use_type_invariant(&*self);
        }
        if weights.rows() != self.input_size || weights.cols() != self.output_size {
            return Err(LayerError::ShapeMismatch);
        }
        self.weights = weights;
        Ok(())
    }

    /// Replaces the biases with `biases`, which must have `output_size` entries.
    pub fn set_biases(&mut self, biases: Vec<T>) -> (r: Result<(), LayerError>)
        ensures
            final(self).wf(),
            r is Ok <==> biases@.len() == old(self).out_size(),
            r is Err ==> r == Err::<(), LayerError>(LayerError::ShapeMismatch) && *final(self)
                == *old(self),
            r is Ok ==> final(self).biases_spec() == biases@,
            final(self).in_size() == old(self).in_size(),
            final(self).out_size() == old(self).out_size(),
            final(self).weights_spec() == old(self).weights_spec(),
            final(self).same_caches(old(self)),
    {
        proof {
            use_type_invariant(&*self);
        }
        if biases.len() != self.output_size {
            return Err(LayerError::ShapeMismatch);
        }
        self.biases = biases;
        Ok(())
    }
    /// Starts a forward pass on `input`, a batch of `input.rows()` rows of
    /// `input_size` entries: caches a copy of it in place of any earlier one and
    /// returns the shape of the output, `(input.rows(), output_size)`. A batch
    /// with no rows, or rows of another width, is refused with `ShapeMismatch`
    /// and leaves the layer as it was.
    pub fn record_input(&mut self, input: &Matrix<T>) -> (r: Result<(usize, usize), LayerError>)
        ensures
            final(self).wf(),
            final(self).same_parameters(old(self)),
            r is Ok <==> old(self).accepts_input(input),
            r is Err ==> r == Err::<(usize, usize), LayerError>(LayerError::ShapeMismatch)
                && *final(self) == *old(self),
            r matches Ok(shape) ==> {
                &&& shape.0 == input.nrows()
                &&& shape.1 == old(self).out_size()
                &&& final(self).input_cache_spec() matches Some(c)
                &&& c.nrows() == input.nrows()
                &&& c.ncols() == input.ncols()
                &&& c.elems() == input.elems()
                &&& final(self).grad_weights_spec() == old(self).grad_weights_spec()
                &&& final(self).grad_biases_spec() == old(self).grad_biases_spec()
            },
    {
        proof {
            use_type_invariant(&*self);
        }
        let (rows, cols) = input.shape();
        if cols != self.input_size || rows == 0 {
            return Err(LayerError::ShapeMismatch);
        }
        self.input_cache = Some(input.copy());
        Ok((rows, self.output_size))
    }

    /// Starts a backward pass on `grad_output` and hands back the cached input
    /// that the weight gradient is computed from. Refused with `InvalidState`
    /// when no forward pass has run, and with `ShapeMismatch` when
    /// `grad_output` is not one row per cached input row by `output_size`.
    /// The gradient of the input then has the cached input's shape, the
    /// gradient of the weights is `input_size` by `output_size` and that of the
    /// biases has `output_size` entries.
    pub fn backward_input(&self, grad_output: &Matrix<T>) -> (r: Result<&Matrix<T>, LayerError>)
        ensures
            self.wf(),
            self.input_cache_spec() is None ==> r == Err::<&Matrix<T>, LayerError>(
                LayerError::InvalidState,
            ),
            self.input_cache_spec() matches Some(c) ==> (r is Ok <==> self.accepts_grad_output(
                c,
                grad_output,
            )),
            self.input_cache_spec() matches Some(c) ==> (r is Err ==> r == Err::<
                &Matrix<T>,
                LayerError,
            >(LayerError::ShapeMismatch)),
            r matches Ok(c) ==> {
                &&& self.input_cache_spec() == Some(*c)
                &&& c.nrows() == grad_output.nrows()
                &&& c.ncols() == self.in_size()
            },
    {
        proof {
            use_type_invariant(self);
        }
        match &self.input_cache {
            None => Err(LayerError::InvalidState),
            Some(c) => {
                let (rows, cols) = grad_output.shape();
                if rows != c.rows() || cols != self.output_size {
                    Err(LayerError::ShapeMismatch)
                } else {
                    Ok(c)
                }
            },
        }
    }

    /// Ends a backward pass: caches the weight and bias gradients in place of
    /// any earlier ones. Refused with `InvalidState` when no forward pass has
    /// run, and with `ShapeMismatch` when the gradients do not have the shapes
    /// of the weights and biases; a refusal leaves the layer as it was.
    pub fn record_gradients(&mut self, grad_weights: Matrix<T>, grad_biases: Vec<T>) -> (r: Result<
        (),
        LayerError,
    >)
        ensures
            final(self).wf(),
            final(self).same_parameters(old(self)),
            final(self).input_cache_spec() == old(self).input_cache_spec(),
            old(self).input_cache_spec() is None ==> r == Err::<(), LayerError>(
                LayerError::InvalidState,
            ),
            old(self).input_cache_spec() is Some ==> (r is Ok <==> (old(self).fits_weights(
                grad_weights,
            ) && grad_biases@.len() == old(self).out_size())),
            old(self).input_cache_spec() is Some && r is Err ==> r == Err::<(), LayerError>(
                LayerError::ShapeMismatch,
            ),
            r is Err ==> *final(self) == *old(self),
            r is Ok ==> final(self).grad_weights_spec() == Some(grad_weights)
                && final(self).grad_biases_spec() == Some(grad_biases@),
    {
        proof {
            use_type_invariant(&*self);
        }
        if self.input_cache.is_none() {
            return Err(LayerError::InvalidState);
        }
        let (rows, cols) = grad_weights.shape();
        if rows != self.input_size || cols != self.output_size || grad_biases.len()
            != self.output_size {
            return Err(LayerError::ShapeMismatch);
        }
        self.grad_weights_cache = Some(grad_weights);
        self.grad_biases_cache = Some(grad_biases);
        Ok(())
    }

    /// The weight and bias gradients that a gradient-descent step applies:
    /// `weights - learning_rate * grad_weights` and
    /// `biases - learning_rate * grad_biases`. Refused with `InvalidState`
    /// when either is missing, that is before any backward pass. The caches
    /// stay after an update, so a second update without a backward pass in
    /// between applies the same gradients again.
    pub fn update_gradients(&self) -> (r: Result<(&Matrix<T>, &Vec<T>), LayerError>)
        ensures
            self.wf(),
            r is Ok <==> (self.grad_weights_spec() is Some && self.grad_biases_spec() is Some),
            r is Err ==> r == Err::<(&Matrix<T>, &Vec<T>), LayerError>(LayerError::InvalidState),
            r matches Ok(g) ==> {
                &&& self.grad_weights_spec() == Some(*g.0)
                &&& self.grad_biases_spec() == Some(g.1@)
                &&& self.fits_weights(*g.0)
                &&& g.1@.len() == self.out_size()
            },
    {
        proof {
            use_type_invariant(self);
        }
        match (&self.grad_weights_cache, &self.grad_biases_cache) {
            (Some(gw), Some(gb)) => Ok((gw, gb)),
            _ => Err(LayerError::InvalidState),
        }
    }
}

} // verus!
