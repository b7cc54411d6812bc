//! The library's error taxonomy, one variant per failure kind of loading and
//! typed access.

use vstd::prelude::*;

verus! {

/// Why a load or a typed read failed.
///
/// `DirectoryUnreadable` names the configuration directory that could not be
/// listed; `BuildFailed` carries the merge engine's message when a document
/// does not parse; `NotFound` carries the key that no source defines;
/// `TypeMismatch` carries the engine's message when a key exists but its value
/// does not convert to the requested shape.
#[derive(Debug)]
pub enum ConfError {
    DirectoryUnreadable(String),
    BuildFailed(String),
    NotFound(String),
    TypeMismatch(String),
}

/// A typed read ended in `NotFound`.
pub open spec fn got_not_found<T>(r: Result<T, ConfError>) -> bool {
    match r {
        Result::Ok(_) => false,
        Result::Err(e) => e is NotFound,
    }
}

/// A typed read ended in `TypeMismatch`.
pub open spec fn got_type_mismatch<T>(r: Result<T, ConfError>) -> bool {
    match r {
        Result::Ok(_) => false,
        Result::Err(e) => e is TypeMismatch,
    }
}

impl ConfError {
    /// The text carried by the error: a path, a key, or the engine's message.
    pub fn message(&self) -> (r: &String)
        ensures
            *self is DirectoryUnreadable ==> r@ == self->DirectoryUnreadable_0@,
            *self is BuildFailed ==> r@ == self->BuildFailed_0@,
            *self is NotFound ==> r@ == self->NotFound_0@,
            *self is TypeMismatch ==> r@ == self->TypeMismatch_0@,
    {
        match self {
            ConfError::DirectoryUnreadable(s) => s,
            ConfError::BuildFailed(s) => s,
            ConfError::NotFound(s) => s,
            ConfError::TypeMismatch(s) => s,
        }
    }

    pub fn is_directory_unreadable(&self) -> (r: bool)
        ensures
            r == (*self is DirectoryUnreadable),
    {
        match self {
            ConfError::DirectoryUnreadable(_) => true,
            _ => false,
        }
    }

    pub fn is_build_failed(&self) -> (r: bool)
        ensures
            r == (*self is BuildFailed),
    {
        match self {
            ConfError::BuildFailed(_) => true,
            _ => false,
        }
    }

    pub fn is_not_found(&self) -> (r: bool)
        ensures
            r == (*self is NotFound),
    {
        match self {
            ConfError::NotFound(_) => true,
            _ => false,
        }
    }

    pub fn is_type_mismatch(&self) -> (r: bool)
        ensures
            r == (*self is TypeMismatch),
    {
        match self {
            ConfError::TypeMismatch(_) => true,
            _ => false,
        }
    }
}

/// The error a load returns when the configuration directory itself cannot be
/// listed.
pub fn directory_unreadable_error(path: &str) -> (e: ConfError)
    ensures
        e is DirectoryUnreadable,
        e->DirectoryUnreadable_0@ == path@,
{
    ConfError::DirectoryUnreadable(path.to_owned())
}

} // verus!
