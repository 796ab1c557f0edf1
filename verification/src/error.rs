//! The failures that a registry operation can end in.

use vstd::prelude::*;

verus! {

/// The status with which the operating system reports success.
pub const ERROR_SUCCESS: u32 = 0;

pub const ERROR_FILE_NOT_FOUND: u32 = 2;

pub const ERROR_PATH_NOT_FOUND: u32 = 3;

pub const ERROR_ACCESS_DENIED: u32 = 5;

pub const ERROR_SHARING_VIOLATION: u32 = 32;

pub const ERROR_FILE_EXISTS: u32 = 80;

pub const ERROR_DIR_NOT_EMPTY: u32 = 145;

pub const ERROR_BUSY: u32 = 170;

pub const ERROR_ALREADY_EXISTS: u32 = 183;

pub const ERROR_PRIVILEGE_NOT_HELD: u32 = 1314;

/// Why a registry operation did not succeed.
///
/// `InvalidNul` is raised by the library itself, before anything is asked of
/// the operating system. Every other variant stands for a status that the
/// operating system reported, and keeps that status.
#[derive(Debug, Copy, Clone, PartialEq, Eq, Structural, Hash)]
pub enum Error {
    /// The path or name holds a terminator; the field is the index of the
    /// first one among the wide units.
    InvalidNul(usize),
    /// The key, the mounted hive or the file does not exist.
    NotFound(u32),
    /// The caller lacks a right or a privilege that the operation needs.
    PermissionDenied(u32),
    /// The name is already taken.
    AlreadyExists(u32),
    /// The key still has child keys, or the subtree is held open.
    Busy(u32),
    /// Any other status.
    Unknown(u32),
}

/// The error that stands for a status of the operating system.
pub open spec fn status_error(status: u32) -> Error {
    if status == ERROR_FILE_NOT_FOUND || status == ERROR_PATH_NOT_FOUND {
        Error::NotFound(status)
    } else if status == ERROR_ACCESS_DENIED || status == ERROR_PRIVILEGE_NOT_HELD {
        Error::PermissionDenied(status)
    } else if status == ERROR_ALREADY_EXISTS || status == ERROR_FILE_EXISTS {
        Error::AlreadyExists(status)
    } else if status == ERROR_DIR_NOT_EMPTY || status == ERROR_BUSY || status
        == ERROR_SHARING_VIOLATION {
        Error::Busy(status)
    } else {
        Error::Unknown(status)
    }
}

/// What a status means for an operation that hands nothing back.
pub open spec fn status_result(status: u32) -> Result<(), Error> {
    if status == ERROR_SUCCESS {
        Ok(())
    } else {
        Err(status_error(status))
    }
}

impl Error {
    /// The status that the operating system reported, if the error stands
    /// for one.
    pub open spec fn spec_status(&self) -> Option<u32> {
        match *self {
            Error::InvalidNul(_) => None,
            Error::NotFound(status) => Some(status),
            Error::PermissionDenied(status) => Some(status),
            Error::AlreadyExists(status) => Some(status),
            Error::Busy(status) => Some(status),
            Error::Unknown(status) => Some(status),
        }
    }

    /// Sorts a status of the operating system into the kinds of failure.
    pub fn from_status(status: u32) -> (e: Error)
        ensures
            e == status_error(status),
    {
        if status == ERROR_FILE_NOT_FOUND || status == ERROR_PATH_NOT_FOUND {
            Error::NotFound(status)
        } else if status == ERROR_ACCESS_DENIED || status == ERROR_PRIVILEGE_NOT_HELD {
            Error::PermissionDenied(status)
        } else if status == ERROR_ALREADY_EXISTS || status == ERROR_FILE_EXISTS {
            Error::AlreadyExists(status)
        } else if status == ERROR_DIR_NOT_EMPTY || status == ERROR_BUSY || status
            == ERROR_SHARING_VIOLATION {
            Error::Busy(status)
        } else {
            Error::Unknown(status)
        }
    }

    /// The status that the operating system reported, if the error stands
    /// for one.
    #[verifier::when_used_as_spec(spec_status)]
    pub fn status(&self) -> (status: Option<u32>)
        ensures
            status == self.spec_status(),
    {
        match self {
            Error::InvalidNul(_) => None,
            Error::NotFound(status) => Some(*status),
            Error::PermissionDenied(status) => Some(*status),
            Error::AlreadyExists(status) => Some(*status),
            Error::Busy(status) => Some(*status),
            Error::Unknown(status) => Some(*status),
        }
    }

    /// Whether the error was raised while a path was encoded, before the
    /// operating system was asked anything.
    pub fn is_encoding(&self) -> (b: bool)
        ensures
            b == (self.spec_status() is None),
    {
        match self {
            Error::InvalidNul(_) => true,
            _ => false,
        }
    }

    /// Sorting a status keeps it: the error of a status reports that status.
    pub proof fn lemma_status_is_kept(status: u32)
        ensures
            status_error(status).spec_status() == Some(status),
    {
    }
}

/// Turns the status of an operation that hands nothing back into its result.
pub fn check_status(status: u32) -> (res: Result<(), Error>)
    ensures
        res == status_result(status),
{
    if status == ERROR_SUCCESS {
        Ok(())
    } else {
        Err(Error::from_status(status))
    }
}

} // verus!
