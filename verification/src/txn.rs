//! How a transaction of the record store can fail.

use vstd::prelude::*;

verus! {

/// The two ways in which a transaction ends without a commit.
#[derive(Clone, Copy, Debug, PartialEq, Eq, Structural)]
pub enum TxnErrorType {
    /// The transaction is to be run again.
    Retry,
    /// The transaction was given up.
    Abort,
}

/// The result of a transaction.
pub type TxnResult<T> = Result<T, TxnErrorType>;

impl TxnErrorType {
    /// What the error says of itself.
    pub open spec fn description(self) -> Seq<char> {
        match self {
            TxnErrorType::Retry => "Retry mechanism triggered"@,
            TxnErrorType::Abort => "Abort triggered"@,
        }
    }

    pub fn message(self) -> (r: &'static str)
        ensures
            r@ == self.description(),
    {
        match self {
            TxnErrorType::Retry => "Retry mechanism triggered",
            TxnErrorType::Abort => "Abort triggered",
        }
    }
}

} // verus!
