//! Privilege and driver gate: is the process elevated, and are the capture
//! driver's files installed where the kernel interface will find them?
//!
//! Both checks are pure: the OS facts they judge arrive as a
//! [`PrivilegeProbe`] and a [`DriverProbe`], filled in by the unverified
//! shell around the library.

use vstd::prelude::*;

use crate::error::CaptureError;

verus! {

/// What the OS query for the process token's elevation came to.
///
/// The query itself — the Windows security API call on the current process
/// token — is the shell's; the library judges its outcome.
#[derive(Debug, Clone, PartialEq, Eq)]
pub struct PrivilegeProbe {
    /// The OS query completed. When false, `token_elevated` carries no
    /// meaning and `failure_cause` describes what went wrong.
    pub query_succeeded: bool,
    /// The process token carries administrative rights.
    pub token_elevated: bool,
    /// The underlying cause when the query failed, already rendered as text.
    pub failure_cause: String,
}

/// What a lookup of the driver's files found, location by location.
///
/// The driver ships as a pair: a user-mode library (`WinDivert.dll` or, for
/// 64-bit, `WinDivert64.dll`) and a kernel-mode driver file (`WinDivert.sys`
/// or `WinDivert64.sys`). The probe records which of the four names exist in
/// the directory of the running executable, and which of the two kernel-mode
/// names exist in the OS driver directory (`%SystemRoot%\System32\drivers`,
/// with a fixed default when the environment root is unset).
#[derive(Debug, Clone, Copy, PartialEq, Eq, Structural)]
pub struct DriverProbe {
    /// The directory of the running executable could be determined.
    pub exe_dir_known: bool,
    /// `WinDivert64.dll` exists in the executable's directory.
    pub exe_dll64: bool,
    /// `WinDivert.dll` exists in the executable's directory.
    pub exe_dll32: bool,
    /// `WinDivert64.sys` exists in the executable's directory.
    pub exe_sys64: bool,
    /// `WinDivert.sys` exists in the executable's directory.
    pub exe_sys32: bool,
    /// `WinDivert64.sys` exists in the OS driver directory.
    pub drivers_sys64: bool,
    /// `WinDivert.sys` exists in the OS driver directory.
    pub drivers_sys32: bool,
}

/// The executable's directory holds the full driver pair: a user-mode library
/// in either naming variant, and a kernel-mode file in either variant.
pub open spec fn app_dir_has_pair(p: DriverProbe) -> bool {
    p.exe_dir_known && (p.exe_dll64 || p.exe_dll32) && (p.exe_sys64 || p.exe_sys32)
}

/// The OS driver directory holds the kernel-mode file alone, in either variant.
pub open spec fn system_dir_has_driver(p: DriverProbe) -> bool {
    p.drivers_sys64 || p.drivers_sys32
}

/// The probed filesystem satisfies the driver precondition as a whole.
pub open spec fn driver_gate_satisfied(p: DriverProbe) -> bool {
    app_dir_has_pair(p) || system_dir_has_driver(p)
}

/// The probed process satisfies the privilege precondition: the elevation
/// query completed and the token carries administrative rights.
pub open spec fn privilege_gate_satisfied(p: PrivilegeProbe) -> bool {
    p.query_succeeded && p.token_elevated
}

/// Check whether the application runs with administrator privileges.
///
/// Reports exactly what the process-token query found: the elevation bit
/// when the query completed, and `PrivilegeDetectionFailed` with the
/// underlying cause when it did not. Mutates nothing.
pub fn is_running_as_admin(probe: &PrivilegeProbe) -> (r: Result<bool, CaptureError>)
    ensures
        probe.query_succeeded ==> r == Ok::<bool, CaptureError>(probe.token_elevated),
        !probe.query_succeeded ==> r == Err::<bool, CaptureError>(
            CaptureError::PrivilegeDetectionFailed(probe.failure_cause),
        ),
{
    if probe.query_succeeded {
        Ok(probe.token_elevated)
    } else {
        Err(CaptureError::PrivilegeDetectionFailed(probe.failure_cause.clone()))
    }
}

/// Verify the capture driver's installation against a filesystem probe.
///
/// Searches, in order: the executable's directory for the full driver pair
/// (both the user-mode library and the kernel-mode file, in either 32/64-bit
/// naming variant, in that one directory), then the OS driver directory for
/// the kernel-mode file alone. Returns `Ok(true)` on the first match and
/// `CaptureError::WinDivertDriverNotFound` when neither location matches, so
/// that startup shows an actionable message instead of a cryptic
/// initialization failure later. Idempotent; mutates nothing.
pub fn check_windivert_driver(probe: &DriverProbe) -> (r: Result<bool, CaptureError>)
    ensures
        r == if driver_gate_satisfied(*probe) {
            Ok::<bool, CaptureError>(true)
        } else {
            Err::<bool, CaptureError>(CaptureError::WinDivertDriverNotFound)
        },
{
    if probe.exe_dir_known && (probe.exe_dll64 || probe.exe_dll32) {
        if probe.exe_sys64 || probe.exe_sys32 {
            return Ok(true);
        }
    }
    if probe.drivers_sys64 || probe.drivers_sys32 {
        return Ok(true);
    }
    Err(CaptureError::WinDivertDriverNotFound)
}

} // verus!
