//! The stubbed video callback.
//!
//! The guest hands the host an offset into shared memory where a rendered
//! frame begins. Presentation is deliberately unimplemented: the callback is a
//! named capability with a no-op variant, so a real presenter can be added
//! later without changing the import contract.

use vstd::prelude::*;

verus! {

/// The set of frame presenters the host can register. Only the no-op variant
/// exists today.
#[derive(Clone, Copy, Debug, PartialEq, Eq, Structural)]
pub enum FramePresenter {
    NoOp,
}

impl FramePresenter {
    /// Accepts any frame-buffer offset, inspects nothing, presents nothing.
    /// Returns whether a frame was put on screen, which for the no-op
    /// presenter is never.
    pub fn present_frame(&self, _offset: i32) -> (presented: bool)
        ensures
            presented == false,
    {
        match self {
            FramePresenter::NoOp => false,
        }
    }
}

/// The `js.js_draw_screen` host import: a no-op for every offset, including
/// out-of-range ones. It never fails and returns at once; the frame buffer is
/// not read.
pub fn draw_screen(_offset: i32)
{
    let presenter = FramePresenter::NoOp;
    let _presented = presenter.present_frame(_offset);
}

} // verus!
