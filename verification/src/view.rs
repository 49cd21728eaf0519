//! The window of a plug-in's editor.

use crate::component::WindowType;
use crate::error::Error;
use vst3::Steinberg::ViewRect;
use vstd::prelude::*;

verus! {

/// `vst3::Steinberg::ViewRect`, the rectangle of a view as the plug-in
/// interface defines it. The library hands such values on and never looks
/// inside them; nothing is claimed of what they hold.
#[verifier::external_type_specification]
#[verifier::external_body]
pub struct ExViewRect(ViewRect);

/// The frame that a host puts around the view of a plug-in.
pub trait PlugFrame {
    /// Called when the view asks to be resized to `rect`. A frame that does
    /// not resize leaves the call as it is: not implemented.
    fn resize_view(&self, rect: ViewRect) -> Result<(), Error> {
        Err(Error::NotImplemented)
    }
}

/// The window of the host that a view is attached to, as its windowing
/// system knows it.
#[derive(Copy, Clone, Debug, PartialEq, Eq, Structural)]
pub enum WindowHandle {
    /// A window handle of Win32.
    Win32(isize),
    /// The address of a view of AppKit.
    AppKit(usize),
    /// A window of XCB.
    Xcb(u32),
    /// A window of Xlib.
    Xlib(u64),
    /// A window of any other system.
    Other,
}

/// What a view is handed when it is attached to `window`: the handle as an
/// address-sized number and the kind of window; no view can be attached to
/// a window of another system.
pub open spec fn attach_target_of(window: WindowHandle) -> Result<(usize, WindowType), Error> {
    match window {
        WindowHandle::Win32(hwnd) => Ok((hwnd as usize, WindowType::HWND)),
        WindowHandle::AppKit(view) => Ok((view, WindowType::NSView)),
        WindowHandle::Xcb(window) => Ok((window as usize, WindowType::X11)),
        WindowHandle::Xlib(window) => Ok((window as usize, WindowType::X11)),
        WindowHandle::Other => Err(Error::NotImplemented),
    }
}

/// Says what to hand to a view that is attached to `window`.
pub fn attach_target(window: WindowHandle) -> (target: Result<(usize, WindowType), Error>)
    ensures
        target == attach_target_of(window),
{
    match window {
        WindowHandle::Win32(hwnd) => Ok((#[verifier::truncate] (hwnd as usize), WindowType::HWND)),
        WindowHandle::AppKit(view) => Ok((view, WindowType::NSView)),
        WindowHandle::Xcb(window) => Ok((#[verifier::truncate] (window as usize), WindowType::X11)),
        WindowHandle::Xlib(window) => Ok(
            (#[verifier::truncate] (window as usize), WindowType::X11),
        ),
        WindowHandle::Other => Err(Error::NotImplemented),
    }
}

} // verus!
