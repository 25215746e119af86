//! What can go wrong, and how badly.

use vstd::prelude::*;

verus! {

/// Exit status of a process that stops on a fatal error.
pub const FATAL_EXIT_CODE: i32 = 101;

/// Why the surface handed out no image for this frame.
#[derive(Clone, Copy, Debug, PartialEq, Eq, Structural)]
pub enum SurfaceError {
    /// No image became free in time.
    Timeout,
    /// The surface no longer matches the window.
    Outdated,
    /// The swap chain is gone and has to be made again.
    Lost,
    /// No memory is left for a new frame.
    OutOfMemory,
}

/// Whether the render loop lives through an error.
#[derive(Clone, Copy, Debug, PartialEq, Eq, Structural)]
pub enum Severity {
    /// The frame is given up and the next redraw tries again.
    Transient,
    /// The process has to stop.
    Fatal,
}

impl SurfaceError {
    /// Only running out of memory is fatal; every other failure to acquire
    /// an image is over by the next frame.
    pub open spec fn spec_severity(self) -> Severity {
        if self == SurfaceError::OutOfMemory {
            Severity::Fatal
        } else {
            Severity::Transient
        }
    }

    #[verifier::when_used_as_spec(spec_severity)]
    pub fn severity(self) -> (s: Severity)
        ensures
            s == self.spec_severity(),
    {
        match self {
            SurfaceError::OutOfMemory => Severity::Fatal,
            _ => Severity::Transient,
        }
    }
}

/// An error that ends the process. None of them is retried.
#[derive(Clone, Copy, Debug, PartialEq, Eq, Structural)]
pub enum FatalError {
    /// No adapter can present to the window's surface.
    AdapterUnavailable,
    /// The chosen adapter gave no logical device.
    DeviceRequestFailed,
    /// The surface offers no pixel format at all.
    NoSurfaceFormat,
    /// The surface ran out of memory while acquiring a frame.
    OutOfMemory,
}

impl FatalError {
    /// The diagnostic that names the step that failed.
    pub open spec fn spec_message(self) -> Seq<char> {
        match self {
            FatalError::AdapterUnavailable => "Failed to request adapter"@,
            FatalError::DeviceRequestFailed => "Failed to request device"@,
            FatalError::NoSurfaceFormat => "Surface had no supported texture formats"@,
            FatalError::OutOfMemory => "Out of memory!"@,
        }
    }

    /// The diagnostic to print before the process stops.
    pub fn message(self) -> (text: &'static str)
        ensures
            text@ == self.spec_message(),
    {
        match self {
            FatalError::AdapterUnavailable => "Failed to request adapter",
            FatalError::DeviceRequestFailed => "Failed to request device",
            FatalError::NoSurfaceFormat => "Surface had no supported texture formats",
            FatalError::OutOfMemory => "Out of memory!",
        }
    }

    /// The exit status to stop with: the same non-zero value for every fatal error.
    pub fn exit_code(self) -> (code: i32)
        ensures
            code == FATAL_EXIT_CODE,
            code != 0,
    {
        FATAL_EXIT_CODE
    }
}

} // verus!
