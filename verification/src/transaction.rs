//! What the transactions of the Plugin and of the Module share.

use vstd::prelude::*;

use crate::failure::RuntimeFailure;

verus! {

/// A transaction either goes on or ends with an outcome. One that ends without
/// a commit is rolled back.
#[derive(Clone, Debug, PartialEq, Eq)]
pub enum Progress<T, O> {
    Continue(T),
    Finish(O),
}

/// A transaction runs if it could be begun, and is a failure otherwise.
pub fn started<T, A>(begun: Result<T, RuntimeFailure>) -> (result: Progress<
    T,
    Result<A, RuntimeFailure>,
>)
    ensures
        result == (match begun {
            Ok(transaction) => Progress::<T, Result<A, RuntimeFailure>>::Continue(transaction),
            Err(failure) => Progress::Finish(Err(failure)),
        }),
{
    match begun {
        Ok(transaction) => Progress::Continue(transaction),
        Err(failure) => Progress::Finish(Err(failure)),
    }
}

/// What an optional text holds.
pub open spec fn optional_text(text: Option<String>) -> Option<Seq<char>> {
    match text {
        Some(text) => Some(text@),
        None => None,
    }
}

} // verus!
