use vstd::prelude::*;
use crate::error::Error;
use crate::value::{decode, RawValue, Value};

verus! {

/// The package type that transfer and install requests are tagged with.
pub const PACKAGE_TYPE: &'static str = "Developer";

/// The name of the debug service started on the device.
pub const DEBUG_SERVICE: &'static str = "com.apple.debugserver";

/// The native calls of an installation, in the order they are made.
#[derive(Debug, Clone, Copy, PartialEq, Eq, Structural)]
pub enum InstallCall {
    TransferPath,
    InstallApplication,
}

/// What the caller must do after a native call of an installation.
#[derive(Debug, Clone, Copy, PartialEq, Eq, Structural)]
pub enum InstallStep {
    Call(InstallCall),
    Installed,
    Failed(Error),
}

/// The first native call of an installation: the transfer of the bundle.
pub fn install_first() -> (c: InstallCall)
    ensures
        c == InstallCall::TransferPath,
{
    InstallCall::TransferPath
}

/// Decides the next step of an installation: a failed call ends it with its
/// status; a successful transfer is followed by the install request.
pub fn install_next(done: InstallCall, status: i32) -> (s: InstallStep)
    ensures
        status != 0 ==> s == InstallStep::Failed(Error::Protocol(status)),
        status == 0 && done == InstallCall::TransferPath ==> s == InstallStep::Call(
            InstallCall::InstallApplication,
        ),
        status == 0 && done == InstallCall::InstallApplication ==> s == InstallStep::Installed,
{
    if status != 0 {
        InstallStep::Failed(Error::Protocol(status))
    } else {
        match done {
            InstallCall::TransferPath => InstallStep::Call(InstallCall::InstallApplication),
            InstallCall::InstallApplication => InstallStep::Installed,
        }
    }
}

/// One installed application, as the device's application lookup lists it:
/// its bundle identifier and its raw path attribute, if any.
pub struct AppRecord {
    pub bundle_id: String,
    pub path: Option<RawValue>,
}

/// The position of the first record with the given bundle identifier.
pub fn find_app(apps: &Vec<AppRecord>, bundle_id: &str) -> (r: Option<usize>)
    ensures
        r matches Some(i) ==> i < apps@.len() && apps@[i as int].bundle_id@ == bundle_id@
            && forall|j: int| 0 <= j < i ==> (#[trigger] apps@[j]).bundle_id@ != bundle_id@,
        r is None ==> forall|j: int|
            0 <= j < apps@.len() ==> (#[trigger] apps@[j]).bundle_id@ != bundle_id@,
{
    let wanted = String::from_str(bundle_id);
    let mut i: usize = 0;
    while i < apps.len()
        invariant
            0 <= i <= apps@.len(),
            wanted@ == bundle_id@,
            forall|j: int| 0 <= j < i ==> (#[trigger] apps@[j]).bundle_id@ != bundle_id@,
        decreases apps@.len() - i,
    {
        if apps[i].bundle_id == wanted {
            return Some(i);
        }
        i = i + 1;
    }
    None
}

/// What the path attribute of an installed application gives: a path when it
/// decodes to a string, else the information is malformed.
pub open spec fn path_of(path: Option<RawValue>, r: Result<String, Error>) -> bool {
    match path {
        Some(RawValue::Str(s)) => r matches Ok(t) && t@ == s@,
        _ => r == Err::<String, Error>(Error::MalformedAppInfo),
    }
}

/// Resolves a bundle identifier to the remote path of the installed
/// application, from the device's list of installed applications.
pub fn resolve_remote_path(apps: Vec<AppRecord>, bundle_id: &str) -> (r: Result<String, Error>)
    ensures
        (forall|j: int| 0 <= j < apps@.len() ==> (#[trigger] apps@[j]).bundle_id@ != bundle_id@)
            ==> r == Err::<String, Error>(Error::AppNotInstalled),
        forall|i: int|
            0 <= i < apps@.len() && (#[trigger] apps@[i]).bundle_id@ == bundle_id@ && (forall|
                j: int,
            | 0 <= j < i ==> (#[trigger] apps@[j]).bundle_id@ != bundle_id@) ==> path_of(
                apps@[i].path,
                r,
            ),
{
    let mut apps = apps;
    match find_app(&apps, bundle_id) {
        None => Err(Error::AppNotInstalled),
        Some(i) => {
            let ghost before = apps@;
            let rec = apps.remove(i);
            assert(rec == before[i as int]);
            match rec.path {
                Some(raw) => match decode(raw) {
                    Ok(Value::String(s)) => Ok(s),
                    _ => Err(Error::MalformedAppInfo),
                },
                None => Err(Error::MalformedAppInfo),
            }
        },
    }
}

} // verus!
