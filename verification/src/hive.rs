//! The fixed root namespaces of the registry.

use vstd::prelude::*;
use crate::error::Error;
use crate::path::{is_first_nul, lemma_utf16_nul_free, nul_free, utf16, PathSource};
use crate::request::{HiveCall, HiveRequest, KeyCall, KeyRequest};
use crate::sec::Security;

verus! {

/// All hives of the Windows registry. Start here to get to a registry key.
#[derive(Debug, Copy, Clone, PartialEq, Eq, Structural, Hash)]
pub enum Hive {
    ClassesRoot,
    CurrentConfig,
    CurrentUser,
    CurrentUserLocalSettings,
    LocalMachine,
    PerformanceData,
    Users,
}

/// `e` is the error for `units`: they hold a terminator, and `e` names the
/// index of the first one.
pub open spec fn rejects(units: Seq<u16>, e: Error) -> bool {
    e matches Error::InvalidNul(at) && is_first_nul(units, at as int)
}

/// What asking for a key handle must end in: the request for exactly this
/// hive, path and security if the path is free of terminators, and the error
/// for the path otherwise.
pub open spec fn key_request_for(
    hive: Hive,
    units: Seq<u16>,
    sec: Security,
    create: bool,
    res: Result<KeyRequest, Error>,
) -> bool {
    match res {
        Ok(req) => nul_free(units) && req@ == (KeyCall {
            hive,
            path: units,
            security: sec,
            create,
        }),
        Err(e) => rejects(units, e),
    }
}

/// What an operation on one path must end in: the request `call` if the
/// path is free of terminators, and the error for the path otherwise.
pub open spec fn hive_request_for(
    units: Seq<u16>,
    call: HiveCall,
    res: Result<HiveRequest, Error>,
) -> bool {
    match res {
        Ok(req) => nul_free(units) && req@ == call,
        Err(e) => rejects(units, e),
    }
}

/// What mounting a hive file must end in: the request for this hive, name
/// and file if neither holds a terminator; the error for the name if it holds
/// one; and otherwise the error for the file.
pub open spec fn load_request_for(
    hive: Hive,
    name: Seq<u16>,
    file: Seq<u16>,
    res: Result<HiveRequest, Error>,
) -> bool {
    match res {
        Ok(req) => {
            &&& nul_free(name)
            &&& nul_free(file)
            &&& req@ == (HiveCall::Load { hive, name, file })
        },
        Err(e) => {
            ||| rejects(name, e)
            ||| nul_free(name) && rejects(file, e)
        },
    }
}

impl Hive {
    /// The 32-bit code that the platform reserves for this hive's predefined
    /// handle.
    pub open spec fn root_code(self) -> int {
        match self {
            Hive::ClassesRoot => 0x8000_0000,
            Hive::CurrentUser => 0x8000_0001,
            Hive::LocalMachine => 0x8000_0002,
            Hive::Users => 0x8000_0003,
            Hive::PerformanceData => 0x8000_0004,
            Hive::CurrentConfig => 0x8000_0005,
            Hive::CurrentUserLocalSettings => 0x8000_0007,
        }
    }

    /// The value of the predefined handle: the 32-bit code read as a signed
    /// number and widened to the size of a pointer.
    pub open spec fn root_handle(self) -> int {
        self.root_code() - 0x1_0000_0000
    }

    /// The canonical name of the hive.
    pub open spec fn display_name(self) -> Seq<char> {
        match self {
            Hive::ClassesRoot => "HKEY_CLASSES_ROOT"@,
            Hive::CurrentConfig => "HKEY_CURRENT_CONFIG"@,
            Hive::CurrentUser => "HKEY_CURRENT_USER"@,
            Hive::CurrentUserLocalSettings => "HKEY_CURRENT_USER_LOCAL_SETTINGS"@,
            Hive::LocalMachine => "HKEY_LOCAL_MACHINE"@,
            Hive::PerformanceData => "HKEY_PERFORMANCE_DATA"@,
            Hive::Users => "HKEY_USERS"@,
        }
    }

    /// Resolves the hive to its predefined native root handle.
    #[inline]
    pub fn as_hkey(&self) -> (handle: isize)
        ensures
            handle == self.root_handle(),
    {
        match self {
            Hive::ClassesRoot => -0x8000_0000,
            Hive::CurrentUser => -0x7FFF_FFFF,
            Hive::LocalMachine => -0x7FFF_FFFE,
            Hive::Users => -0x7FFF_FFFD,
            Hive::PerformanceData => -0x7FFF_FFFC,
            Hive::CurrentConfig => -0x7FFF_FFFB,
            Hive::CurrentUserLocalSettings => -0x7FFF_FFF9,
        }
    }

    /// Prepares the opening of the key at `path` under this hive with the
    /// rights of `sec`. The key must exist for the request to succeed.
    #[inline]
    pub fn open<P: PathSource>(&self, path: P, sec: Security) -> (res: Result<KeyRequest, Error>)
        ensures
            key_request_for(*self, path.wide_units(), sec, false, res),
    {
        match path.into_path() {
            Ok(path) => Ok(KeyRequest { hive: *self, path, security: sec, create: false }),
            Err(e) => Err(e),
        }
    }

    /// Prepares the mounting of the hive file at `path` under this hive, as
    /// the key `name`. The name is encoded first, so a terminator in it is
    /// reported even if the path holds one too.
    #[inline]
    pub fn load<N: PathSource, P: PathSource>(&self, name: N, path: P) -> (res: Result<
        HiveRequest,
        Error,
    >)
        ensures
            load_request_for(*self, name.wide_units(), path.wide_units(), res),
    {
        let name = match name.into_path() {
            Ok(name) => name,
            Err(e) => {
                return Err(e);
            },
        };
        match path.into_path() {
            Ok(file) => Ok(HiveRequest::Load { hive: *self, name, file }),
            Err(e) => Err(e),
        }
    }

    /// Prepares the detaching of the hive that is mounted at `path` under
    /// this hive.
    #[inline]
    pub fn unload<P: PathSource>(&self, path: P) -> (res: Result<HiveRequest, Error>)
        ensures
            hive_request_for(
                path.wide_units(),
                HiveCall::Unload { hive: *self, path: path.wide_units() },
                res,
            ),
    {
        match path.into_path() {
            Ok(path) => Ok(HiveRequest::Unload { hive: *self, path }),
            Err(e) => Err(e),
        }
    }

    /// Prepares the writing of this hive to the file at `file_path`.
    #[inline]
    pub fn write<P: PathSource>(&self, file_path: P) -> (res: Result<HiveRequest, Error>)
        ensures
            hive_request_for(
                file_path.wide_units(),
                HiveCall::Save { hive: *self, file: file_path.wide_units() },
                res,
            ),
    {
        match file_path.into_path() {
            Ok(file) => Ok(HiveRequest::Save { hive: *self, file }),
            Err(e) => Err(e),
        }
    }

    /// Prepares the opening of the key at `path` under this hive with the
    /// rights of `sec`, where the key is created if it is missing.
    #[inline]
    pub fn create<P: PathSource>(&self, path: P, sec: Security) -> (res: Result<KeyRequest, Error>)
        ensures
            key_request_for(*self, path.wide_units(), sec, true, res),
    {
        match path.into_path() {
            Ok(path) => Ok(KeyRequest { hive: *self, path, security: sec, create: true }),
            Err(e) => Err(e),
        }
    }

    /// Prepares the deletion of the key at `path` under this hive; with
    /// `is_recursive`, of all that is below it as well.
    #[inline]
    pub fn delete<P: PathSource>(&self, path: P, is_recursive: bool) -> (res: Result<
        HiveRequest,
        Error,
    >)
        ensures
            hive_request_for(
                path.wide_units(),
                HiveCall::Delete { hive: *self, path: path.wide_units(), recursive: is_recursive },
                res,
            ),
    {
        match path.into_path() {
            Ok(path) => Ok(HiveRequest::Delete { hive: *self, path, recursive: is_recursive }),
            Err(e) => Err(e),
        }
    }

    /// The canonical name of the hive, as the platform's tools print it.
    pub fn name(&self) -> (text: &'static str)
        ensures
            text@ == self.display_name(),
    {
        match self {
            Hive::ClassesRoot => "HKEY_CLASSES_ROOT",
            Hive::CurrentConfig => "HKEY_CURRENT_CONFIG",
            Hive::CurrentUser => "HKEY_CURRENT_USER",
            Hive::CurrentUserLocalSettings => "HKEY_CURRENT_USER_LOCAL_SETTINGS",
            Hive::LocalMachine => "HKEY_LOCAL_MACHINE",
            Hive::PerformanceData => "HKEY_PERFORMANCE_DATA",
            Hive::Users => "HKEY_USERS",
        }
    }

    /// The canonical name of the hive, as an owned text.
    pub fn to_string(&self) -> (text: String)
        ensures
            text@ == self.display_name(),
    {
        self.name().to_owned()
    }

    /// No two hives share a root handle.
    pub proof fn lemma_root_handle_injective(a: Hive, b: Hive)
        requires
            a.root_handle() == b.root_handle(),
        ensures
            a == b,
    {
    }
}

/// Units that hold a terminator are turned down by every lifecycle
/// operation: whatever else it is handed, none of them answers with a
/// request, so nothing is asked of the operating system. The error is
/// `InvalidNul`.
pub proof fn lemma_terminator_is_rejected(units: Seq<u16>)
    requires
        !nul_free(units),
    ensures
        forall|hive: Hive, sec: Security, create: bool, res: Result<KeyRequest, Error>|
            #[trigger] key_request_for(hive, units, sec, create, res) ==> res is Err
                && res->Err_0 is InvalidNul,
        forall|call: HiveCall, res: Result<HiveRequest, Error>|
            #[trigger] hive_request_for(units, call, res) ==> res is Err && res->Err_0 is InvalidNul,
        forall|hive: Hive, file: Seq<u16>, res: Result<HiveRequest, Error>|
            #[trigger] load_request_for(hive, units, file, res) ==> res is Err
                && res->Err_0 is InvalidNul,
        forall|hive: Hive, name: Seq<u16>, res: Result<HiveRequest, Error>|
            #[trigger] load_request_for(hive, name, units, res) ==> res is Err
                && res->Err_0 is InvalidNul,
{
}

/// A text that holds the character of code zero is encoded to units that
/// hold a terminator, so every lifecycle operation turns it down.
pub proof fn lemma_text_with_terminator_is_rejected(text: Seq<char>)
    requires
        text.contains('\0'),
    ensures
        !nul_free(utf16(text)),
        forall|hive: Hive, sec: Security, create: bool, res: Result<KeyRequest, Error>|
            #[trigger] key_request_for(hive, utf16(text), sec, create, res) ==> res is Err
                && res->Err_0 is InvalidNul,
        forall|call: HiveCall, res: Result<HiveRequest, Error>|
            #[trigger] hive_request_for(utf16(text), call, res) ==> res is Err
                && res->Err_0 is InvalidNul,
        forall|hive: Hive, file: Seq<u16>, res: Result<HiveRequest, Error>|
            #[trigger] load_request_for(hive, utf16(text), file, res) ==> res is Err
                && res->Err_0 is InvalidNul,
        forall|hive: Hive, name: Seq<u16>, res: Result<HiveRequest, Error>|
            #[trigger] load_request_for(hive, name, utf16(text), res) ==> res is Err
                && res->Err_0 is InvalidNul,
{
    lemma_utf16_nul_free(text);
    lemma_terminator_is_rejected(utf16(text));
}

/// Asking twice for a key handle with the same hive, path and security
/// gives the same answer twice: the same request, or the same error.
pub proof fn lemma_key_request_is_determined(
    hive: Hive,
    units: Seq<u16>,
    sec: Security,
    create: bool,
    first: Result<KeyRequest, Error>,
    second: Result<KeyRequest, Error>,
)
    requires
        key_request_for(hive, units, sec, create, first),
        key_request_for(hive, units, sec, create, second),
    ensures
        first is Ok <==> second is Ok,
        first is Ok ==> first->Ok_0@ == second->Ok_0@,
        first is Err ==> first->Err_0 == second->Err_0,
{
}

} // verus!
