//! The public error taxonomy and the classification of platform status codes.
use vstd::prelude::*;
use vstd::string::*;

verus! {

/// Status code: the frame wait ran out before a new frame came.
pub const DXGI_ERROR_WAIT_TIMEOUT: i32 = -2005270489;

/// Status code: the duplication channel was invalidated (mode change and the like).
pub const DXGI_ERROR_ACCESS_LOST: i32 = -2005270490;

/// Status code: duplication was refused, for instance while protected content shows.
pub const DXGI_ERROR_ACCESS_DENIED: i32 = -2005270485;

/// Status code: an enumeration ran past its last element.
pub const DXGI_ERROR_NOT_FOUND: i32 = -2005270526;

/// Whether a status code reports a failure: its severity bit, the sign, is set.
pub fn hr_failed(hr: i32) -> (r: bool)
    ensures
        r == (hr < 0),
{
    hr < 0
}

/// Errors that can occur during a capture.
#[derive(Copy, Clone, Debug, PartialEq, Eq, Structural)]
pub enum CaptureError {
    /// Duplication was refused, typically while protected content shows.
    AccessDenied,
    /// The duplication channel was lost (mode change, display change, ...).
    AccessLost,
    /// The channel had to be bound again and binding failed.
    RefreshFailure,
    /// No new frame came within the timeout.
    Timeout,
    /// Any other platform failure, with its status code.
    Fail(i32),
}

/// Errors that can occur while binding the duplication channel.
#[derive(Copy, Clone, Debug, PartialEq, Eq, Structural)]
pub enum OutputDuplicationError {
    /// No desktop-attached output exists at the requested index.
    NoOutput,
    /// Enumeration, device creation or duplication failed, with its status code.
    DeviceError(i32),
}

/// The capture error that a failed frame acquisition with status `code` reports.
pub open spec fn capture_error_of_code(code: i32) -> CaptureError {
    if code == DXGI_ERROR_WAIT_TIMEOUT {
        CaptureError::Timeout
    } else if code == DXGI_ERROR_ACCESS_LOST {
        CaptureError::AccessLost
    } else if code == DXGI_ERROR_ACCESS_DENIED {
        CaptureError::AccessDenied
    } else {
        CaptureError::Fail(code)
    }
}

/// Classifies the status code of a failed frame acquisition.
pub fn capture_error_from_code(code: i32) -> (r: CaptureError)
    ensures
        r == capture_error_of_code(code),
{
    if code == DXGI_ERROR_WAIT_TIMEOUT {
        CaptureError::Timeout
    } else if code == DXGI_ERROR_ACCESS_LOST {
        CaptureError::AccessLost
    } else if code == DXGI_ERROR_ACCESS_DENIED {
        CaptureError::AccessDenied
    } else {
        CaptureError::Fail(code)
    }
}

/// Text describing a capture error.
pub open spec fn capture_error_text(e: CaptureError) -> Seq<char> {
    match e {
        CaptureError::AccessDenied => "Access to output duplication was denied"@,
        CaptureError::AccessLost => "Access to duplicated output was lost"@,
        CaptureError::RefreshFailure => "Failed to refresh output duplication"@,
        CaptureError::Timeout => "Capture operation timed out"@,
        CaptureError::Fail(_) => "Capture failed with a platform error"@,
    }
}

/// Text describing a binding error.
pub open spec fn output_duplication_error_text(e: OutputDuplicationError) -> Seq<char> {
    match e {
        OutputDuplicationError::NoOutput => "No suitable output display was found"@,
        OutputDuplicationError::DeviceError(_) => "Failed to create D3D11 device"@,
    }
}

impl CaptureError {
    /// Whether the error leaves the duplication channel usable: only a timeout does.
    pub open spec fn spec_keeps_binding(self) -> bool {
        self == CaptureError::Timeout
    }

    /// Whether the error leaves the duplication channel usable: only a timeout does.
    pub fn keeps_binding(&self) -> (r: bool)
        ensures
            r == self.spec_keeps_binding(),
    {
        match self {
            CaptureError::Timeout => true,
            _ => false,
        }
    }

    /// A human-readable description of the error.
    pub fn message(&self) -> (r: String)
        ensures
            r@ == capture_error_text(*self),
    {
        match self {
            CaptureError::AccessDenied => String::from_str("Access to output duplication was denied"),
            CaptureError::AccessLost => String::from_str("Access to duplicated output was lost"),
            CaptureError::RefreshFailure => String::from_str("Failed to refresh output duplication"),
            CaptureError::Timeout => String::from_str("Capture operation timed out"),
            CaptureError::Fail(_) => String::from_str("Capture failed with a platform error"),
        }
    }
}

impl OutputDuplicationError {
    /// A human-readable description of the error.
    pub fn message(&self) -> (r: String)
        ensures
            r@ == output_duplication_error_text(*self),
    {
        match self {
            OutputDuplicationError::NoOutput => String::from_str("No suitable output display was found"),
            OutputDuplicationError::DeviceError(_) => String::from_str("Failed to create D3D11 device"),
        }
    }
}

} // verus!
