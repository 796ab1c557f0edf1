//! Requests to the native registry, and what its answers mean.
//!
//! A lifecycle operation of a hive does not touch the registry. It decides
//! what is to be asked of the operating system and hands that out as a
//! request. The embedding program makes the native call and brings the
//! status back to `finish`, which decides what the caller gets.

use vstd::prelude::*;
use crate::error::{check_status, status_error, status_result, Error, ERROR_SUCCESS};
use crate::hive::Hive;
use crate::key::{KeyState, RegKey};
use crate::path::EncodedPath;
use crate::sec::Security;

verus! {

/// A request for a key handle, as plain values.
pub struct KeyCall {
    pub hive: Hive,
    pub path: Seq<u16>,
    pub security: Security,
    /// Whether the key is to be created where it is missing.
    pub create: bool,
}

/// A request for a key handle: the key at `path` under `hive` is to be
/// opened with the rights of `security`.
#[derive(Debug)]
pub struct KeyRequest {
    pub hive: Hive,
    pub path: EncodedPath,
    pub security: Security,
    /// Whether the key is to be created where it is missing.
    pub create: bool,
}

impl View for KeyRequest {
    type V = KeyCall;

    open spec fn view(&self) -> KeyCall {
        KeyCall { hive: self.hive, path: self.path@, security: self.security, create: self.create }
    }
}

impl KeyRequest {
    /// The native root handle under which the path is to be resolved.
    pub fn root(&self) -> (handle: isize)
        ensures
            handle == self.hive.root_handle(),
    {
        self.hive.as_hkey()
    }

    /// Decides what the caller gets once the operating system has answered
    /// with `status` and, on success, with `handle`: the key that owns the
    /// handle, or the error that stands for the status.
    pub fn finish(self, status: u32, handle: isize) -> (res: Result<RegKey, Error>)
        ensures
            match res {
                Ok(key) => status == ERROR_SUCCESS && key@ == (KeyState {
                    hive: self.hive,
                    handle: handle as int,
                    path: self.path@,
                    open: true,
                }),
                Err(e) => status != ERROR_SUCCESS && e == status_error(status),
            },
    {
        if status == ERROR_SUCCESS {
            Ok(RegKey::new(self.hive, handle, self.path))
        } else {
            Err(Error::from_status(status))
        }
    }
}

/// A request that changes the tree or writes it out, as plain values.
pub enum HiveCall {
    Delete { hive: Hive, path: Seq<u16>, recursive: bool },
    Load { hive: Hive, name: Seq<u16>, file: Seq<u16> },
    Unload { hive: Hive, path: Seq<u16> },
    Save { hive: Hive, file: Seq<u16> },
}

/// A request that changes the tree or writes it out.
#[derive(Debug)]
pub enum HiveRequest {
    /// Delete the key at `path`, with all that is below it if `recursive`.
    Delete { hive: Hive, path: EncodedPath, recursive: bool },
    /// Mount the hive file `file` under the key name `name`.
    Load { hive: Hive, name: EncodedPath, file: EncodedPath },
    /// Detach the hive that is mounted at `path`.
    Unload { hive: Hive, path: EncodedPath },
    /// Write the hive to the file `file`.
    Save { hive: Hive, file: EncodedPath },
}

impl View for HiveRequest {
    type V = HiveCall;

    open spec fn view(&self) -> HiveCall {
        match *self {
            HiveRequest::Delete { hive, path, recursive } => HiveCall::Delete {
                hive,
                path: path@,
                recursive,
            },
            HiveRequest::Load { hive, name, file } => HiveCall::Load {
                hive,
                name: name@,
                file: file@,
            },
            HiveRequest::Unload { hive, path } => HiveCall::Unload { hive, path: path@ },
            HiveRequest::Save { hive, file } => HiveCall::Save { hive, file: file@ },
        }
    }
}

impl HiveCall {
    /// The hive that the request is addressed to.
    pub open spec fn hive(self) -> Hive {
        match self {
            HiveCall::Delete { hive, .. } => hive,
            HiveCall::Load { hive, .. } => hive,
            HiveCall::Unload { hive, .. } => hive,
            HiveCall::Save { hive, .. } => hive,
        }
    }
}

impl HiveRequest {
    /// The hive that the request is addressed to.
    pub fn hive(&self) -> (hive: Hive)
        ensures
            hive == self@.hive(),
    {
        match self {
            HiveRequest::Delete { hive, .. } => *hive,
            HiveRequest::Load { hive, .. } => *hive,
            HiveRequest::Unload { hive, .. } => *hive,
            HiveRequest::Save { hive, .. } => *hive,
        }
    }

    /// The native root handle under which the request is to be carried out.
    pub fn root(&self) -> (handle: isize)
        ensures
            handle == self@.hive().root_handle(),
    {
        self.hive().as_hkey()
    }

    /// Decides what the caller gets once the operating system has answered
    /// with `status`.
    pub fn finish(self, status: u32) -> (res: Result<(), Error>)
        ensures
            res == status_result(status),
    {
        check_status(status)
    }
}

} // verus!
