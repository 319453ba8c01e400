//! Which windowing platform to ask for on each operating system.
use vstd::prelude::*;

verus! {

/// The operating system the program was built for.
#[derive(Debug, Clone, Copy, PartialEq, Eq, Structural)]
pub enum HostOs {
    Linux,
    MacOs,
    Windows,
    Other,
}

/// A windowing platform the window library can use.
#[derive(Debug, Clone, Copy, PartialEq, Eq, Structural)]
pub enum WindowPlatform {
    X11,
    MacOs,
    Win32,
    /// Let the window library choose.
    Any,
}

/// The platform for each operating system: X11 on Linux, Cocoa on macOS,
/// Win32 on Windows, and the library's own choice elsewhere.
pub open spec fn platform_for(os: HostOs) -> WindowPlatform {
    match os {
        HostOs::Linux => WindowPlatform::X11,
        HostOs::MacOs => WindowPlatform::MacOs,
        HostOs::Windows => WindowPlatform::Win32,
        HostOs::Other => WindowPlatform::Any,
    }
}

/// The windowing platform to initialize on `os`.
pub fn detect_platform(os: HostOs) -> (p: WindowPlatform)
    ensures
        p == platform_for(os),
{
    match os {
        HostOs::Linux => WindowPlatform::X11,
        HostOs::MacOs => WindowPlatform::MacOs,
        HostOs::Windows => WindowPlatform::Win32,
        HostOs::Other => WindowPlatform::Any,
    }
}

} // verus!
