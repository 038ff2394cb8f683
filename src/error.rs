use vstd::prelude::*;

verus! {

/// The HTTP status with which an error is reported.
pub trait ErrorStatus {
    spec fn status(&self) -> u16;

    fn error_status(&self) -> (r: u16)
        ensures
            r == self.status(),
    ;
}

/// How an error response is written.
#[derive(Debug, Clone, Copy, PartialEq, Eq, Structural)]
pub enum ErrorOutput {
    Json,
    Html,
}

/// A failure that must stop the application from starting.
#[derive(Debug)]
pub struct CriticalError(pub String);

} // verus!
