//! Display subsystem: the main display chosen at initialisation and the
//! queries answered about it.
use vstd::prelude::*;

verus! {

/// Framebuffer description of a display device.
#[derive(Clone, Copy, Debug, PartialEq, Eq, Structural)]
pub struct DisplayInfo {
    pub width: u32,
    pub height: u32,
    pub fb_base_vaddr: usize,
    pub fb_size: usize,
}

/// The main display, if one was found.
pub struct MainDisplay {
    info: Option<DisplayInfo>,
}

impl MainDisplay {
    pub closed spec fn spec_info(&self) -> Option<DisplayInfo> {
        self.info
    }

    /// Takes the first display device found, described by `first`.
    pub fn init_display(first: Option<DisplayInfo>) -> (d: MainDisplay)
        ensures
            d.spec_info() == first,
    {
        MainDisplay { info: first }
    }
}

/// Whether a display device was found.
pub fn has_display(display: &MainDisplay) -> (r: bool)
    ensures
        r == display.spec_info() is Some,
{
    display.info.is_some()
}

/// Framebuffer of the main display.
pub fn framebuffer_info(display: &MainDisplay) -> (i: DisplayInfo)
    requires
        display.spec_info() is Some,
    ensures
        Some(i) == display.spec_info(),
{
    display.info.unwrap()
}

/// Whether a flush of the framebuffer succeeded, given the device's
/// answer to it.
pub fn framebuffer_flush<E>(flush_result: Result<(), E>) -> (r: bool)
    ensures
        r == flush_result is Ok,
{
    flush_result.is_ok()
}

} // verus!
