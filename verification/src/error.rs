//! Error taxonomy of the capture core, with the human-readable message each
//! error surfaces to the GUI shell.

use vstd::prelude::*;

verus! {

/// Everything that can go wrong while preparing or running a capture.
#[derive(Debug, Clone, PartialEq, Eq)]
pub enum CaptureError {
    /// The process token lacks administrative rights.
    RequiresAdminPrivileges,
    /// The OS query for the token's elevation failed; the payload is the cause.
    PrivilegeDetectionFailed(String),
    /// Neither the application directory nor the OS driver directory holds the
    /// capture driver's files.
    WinDivertDriverNotFound,
    /// The kernel-mode driver file is present but refused by the OS.
    DriverBlocked,
    /// Opening the kernel interception interface failed; the payload is the
    /// underlying OS error, already rendered as text.
    WinDivertInitFailed(String),
    /// The bounded packet channel failed; the payload describes how.
    ChannelError(String),
    /// The capture loop ended abnormally; the payload describes why.
    CaptureLoopError(String),
}

impl CaptureError {
    /// The message a given error renders to, as a sequence of characters.
    pub open spec fn spec_message(&self) -> Seq<char> {
        match self {
            CaptureError::RequiresAdminPrivileges => "Application requires Administrator privileges to capture network traffic. Please restart the application as Administrator."@,
            CaptureError::PrivilegeDetectionFailed(s) => "Failed to detect administrator privileges: "@ + s@,
            CaptureError::WinDivertDriverNotFound => "WinDivert driver not found. Please download WinDivert 2.2.2-A from https://reqrypt.org/windivert.html and place WinDivert.dll and WinDivert64.sys in the application directory."@,
            CaptureError::DriverBlocked => "WinDivert driver installation blocked: WinDivert64.sys may be blocked by antivirus. Please add it to the antivirus allowlist."@,
            CaptureError::WinDivertInitFailed(s) => "Failed to initialize WinDivert handle: "@ + s@,
            CaptureError::ChannelError(s) => "Packet capture channel error: "@ + s@,
            CaptureError::CaptureLoopError(s) => "Capture loop error: "@ + s@,
        }
    }

    /// Render the error as the descriptive, non-cryptic text the command
    /// surface returns to its caller.
    pub fn message(&self) -> (r: String)
        ensures
            r@ == self.spec_message(),
    {
        match self {
            CaptureError::RequiresAdminPrivileges => String::from_str("Application requires Administrator privileges to capture network traffic. Please restart the application as Administrator."),
            CaptureError::PrivilegeDetectionFailed(s) => String::from_str("Failed to detect administrator privileges: ").concat(s.as_str()),
            CaptureError::WinDivertDriverNotFound => String::from_str("WinDivert driver not found. Please download WinDivert 2.2.2-A from https://reqrypt.org/windivert.html and place WinDivert.dll and WinDivert64.sys in the application directory."),
            CaptureError::DriverBlocked => String::from_str("WinDivert driver installation blocked: WinDivert64.sys may be blocked by antivirus. Please add it to the antivirus allowlist."),
            CaptureError::WinDivertInitFailed(s) => String::from_str("Failed to initialize WinDivert handle: ").concat(s.as_str()),
            CaptureError::ChannelError(s) => String::from_str("Packet capture channel error: ").concat(s.as_str()),
            CaptureError::CaptureLoopError(s) => String::from_str("Capture loop error: ").concat(s.as_str()),
        }
    }
}

} // verus!
