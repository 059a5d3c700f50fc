use vstd::prelude::*;

verus! {

/// The tri-state outcome classification of a [`Transaction`](crate::Transaction).
#[derive(Clone, Copy, Debug)]
pub enum Status {
    /// The transaction succeeded.
    Success,
    /// The transaction failed.
    Failure,
    /// Something happened, but the outcome is not known. Rarely used.
    Unknown,
}

impl Status {
    /// The label under which the status appears on the wire.
    pub fn label(&self) -> (r: String)
        ensures
            *self is Success ==> r@ == "success"@,
            *self is Failure ==> r@ == "failure"@,
            *self is Unknown ==> r@ == "unknown"@,
    {
        match self {
            Status::Success => "success".to_owned(),
            Status::Failure => "failure".to_owned(),
            Status::Unknown => "unknown".to_owned(),
        }
    }
}

} // verus!
