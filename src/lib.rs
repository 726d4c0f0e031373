//! Building blocks of a neural network: a fully connected layer and a
//! rectified-linear activation. Each layer checks the shapes it is handed,
//! keeps the caches that link a forward pass to the backward pass and the
//! parameter update after it, and refuses an operation that runs out of order.
//! Element values are of the caller's type; the arithmetic on them is the
//! caller's.

pub mod error;
pub mod matrix;
pub mod dense;
pub mod relu;
