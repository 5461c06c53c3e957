use std::rc::Rc;
use vstd::prelude::*;

verus! {

/// The error type of the byte transport, carried through unread.
#[verifier::external_type_specification]
#[verifier::external_body]
pub struct ExIoError(std::io::Error);

/// Errors that end the service.
#[derive(Clone, Debug)]
pub enum ServiceError {
    /// The transport failed while a message was read from it.
    ReadError(Rc<std::io::Error>),
    /// The transport failed while a message was written to it.
    WriteError(Rc<std::io::Error>),
    /// An internal queue ended or refused an element, or the peer was lost.
    Unknown,
}

/// Calls `Rc::clone` of std: the result points to the same error value as
/// the argument does.
#[verifier::external_body]
fn share_io_error(error: &Rc<std::io::Error>) -> (shared: Rc<std::io::Error>)
    ensures
        shared == *error,
{
    Rc::clone(error)
}

impl ServiceError {
    /// The error of a failed read from the transport.
    pub fn read_failure(error: std::io::Error) -> (r: ServiceError)
        ensures
            r == ServiceError::ReadError(Rc::new(error)),
    {
        ServiceError::ReadError(Rc::new(error))
    }

    /// The error of a failed write to the transport.
    pub fn write_failure(error: std::io::Error) -> (r: ServiceError)
        ensures
            r == ServiceError::WriteError(Rc::new(error)),
    {
        ServiceError::WriteError(Rc::new(error))
    }

    /// A second owner of the same error: every observer of the shutdown
    /// signal gets the value that was recorded.
    pub fn share(&self) -> (r: ServiceError)
        ensures
            r == *self,
    {
        match self {
            ServiceError::ReadError(e) => ServiceError::ReadError(share_io_error(e)),
            ServiceError::WriteError(e) => ServiceError::WriteError(share_io_error(e)),
            ServiceError::Unknown => ServiceError::Unknown,
        }
    }

    pub fn is_read_error(&self) -> (r: bool)
        ensures
            r == (*self is ReadError),
    {
        match self {
            ServiceError::ReadError(_) => true,
            _ => false,
        }
    }

    pub fn is_write_error(&self) -> (r: bool)
        ensures
            r == (*self is WriteError),
    {
        match self {
            ServiceError::WriteError(_) => true,
            _ => false,
        }
    }

    pub fn is_unknown(&self) -> (r: bool)
        ensures
            r == (*self is Unknown),
    {
        match self {
            ServiceError::Unknown => true,
            _ => false,
        }
    }
}

} // verus!
