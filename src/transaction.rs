use vstd::prelude::*;

verus! {

/// The kind of a transaction.
#[derive(Debug, Clone, Copy, PartialEq, Eq, Structural)]
pub enum TransactionType {
    Read,
    Write,
}

} // verus!
