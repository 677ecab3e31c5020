//! The sizes the C API reads frames at and resizes web views to.

use vstd::prelude::*;

verus! {

/// The size a web view is resized to when the embedder asks for `width` by `height`: none when
/// either is zero, for such a request is refused.
pub fn resize_target(width: u32, height: u32) -> (res: Option<(u32, u32)>)
    ensures
        res == if width == 0 || height == 0 {
            None
        } else {
            Some((width, height))
        },
{
    if width == 0 || height == 0 {
        None
    } else {
        Some((width, height))
    }
}

/// The rectangle, from the origin, that a frame is read from when the rendering context is
/// `width` by `height` pixels: each side converted to a signed 32-bit size as Rust's `as`
/// converts it, wrapping past `i32::MAX`.
pub fn read_frame_rect(width: u32, height: u32) -> (res: (i32, i32))
    ensures
        res == (width as i32, height as i32),
{
    (width as i32, height as i32)
}

} // verus!
