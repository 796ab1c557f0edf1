//! The handle of an open registry key.

use vstd::prelude::*;
use crate::hive::Hive;
use crate::path::EncodedPath;

verus! {

/// What a key handle is, as plain values.
pub struct KeyState {
    /// The hive under which the key was reached.
    pub hive: Hive,
    /// The native handle.
    pub handle: int,
    /// The path that led to the key.
    pub path: Seq<u16>,
    /// Whether the native handle is still held.
    pub open: bool,
}

/// An open registry key. It is the only owner of its native handle: the
/// handle is given up once, through `close`, and a closed key stays closed.
#[derive(Debug)]
pub struct RegKey {
    hive: Hive,
    handle: isize,
    path: EncodedPath,
    open: bool,
}

impl View for RegKey {
    type V = KeyState;

    closed spec fn view(&self) -> KeyState {
        KeyState { hive: self.hive, handle: self.handle as int, path: self.path@, open: self.open }
    }
}

impl RegKey {
    /// Takes ownership of a native handle that the operating system has
    /// just handed out for `path` under `hive`.
    pub fn new(hive: Hive, handle: isize, path: EncodedPath) -> (key: RegKey)
        ensures
            key@ == (KeyState { hive, handle: handle as int, path: path@, open: true }),
    {
        RegKey { hive, handle, path, open: true }
    }

    /// The hive under which the key was reached.
    pub fn hive(&self) -> (hive: Hive)
        ensures
            hive == self@.hive,
    {
        self.hive
    }

    /// The path that led to the key.
    pub fn path(&self) -> (path: &EncodedPath)
        ensures
            path@ == self@.path,
    {
        &self.path
    }

    /// Whether the native handle is still held.
    pub fn is_open(&self) -> (open: bool)
        ensures
            open == self@.open,
    {
        self.open
    }

    /// The native handle, as long as it is held.
    pub fn handle(&self) -> (handle: Option<isize>)
        ensures
            match handle {
                Some(h) => self@.open && h == self@.handle,
                None => !self@.open,
            },
    {
        if self.open {
            Some(self.handle)
        } else {
            None
        }
    }

    /// Gives the native handle up. The first call hands it out, for the
    /// caller to release; every later call hands out nothing.
    pub fn close(&mut self) -> (released: Option<isize>)
        ensures
            final(self)@ == (KeyState { open: false, ..old(self)@ }),
            match released {
                Some(h) => old(self)@.open && h == old(self)@.handle,
                None => !old(self)@.open,
            },
    {
        if self.open {
            self.open = false;
            Some(self.handle)
        } else {
            None
        }
    }
}

} // verus!
