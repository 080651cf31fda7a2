//! Descriptions of how a renderer is to draw, independent of any graphics backend.
use vstd::prelude::*;

verus! {

/// The integer type of an index buffer entry.
pub type Index = u32;

/// How fragments are tested against the depth buffer.
#[derive(Copy, Clone, Debug, PartialEq, Eq, Structural)]
pub enum DepthTestMethod {
    IfLess,
}

/// Which faces are culled.
#[derive(Copy, Clone, Debug, PartialEq, Eq, Structural)]
pub enum CullingMethod {
    Clockwise,
    CounterClockwise,
}

/// The draw parameters of an entity: a depth test, face culling, both, or neither.
#[derive(Copy, Clone, Debug, PartialEq, Eq, Structural)]
pub enum DrawMethod {
    Both(DepthTestMethod, CullingMethod),
    Depth(DepthTestMethod),
    Culling(CullingMethod),
    Neither,
}

impl DrawMethod {
    /// The depth test this method asks for, if any.
    pub fn depth_test(&self) -> (r: Option<DepthTestMethod>)
        ensures
            r == match *self {
                DrawMethod::Both(d, _) => Some(d),
                DrawMethod::Depth(d) => Some(d),
                _ => None,
            },
    {
        match self {
            DrawMethod::Both(d, _) => Some(*d),
            DrawMethod::Depth(d) => Some(*d),
            _ => None,
        }
    }

    /// The face culling this method asks for, if any.
    pub fn culling(&self) -> (r: Option<CullingMethod>)
        ensures
            r == match *self {
                DrawMethod::Both(_, c) => Some(c),
                DrawMethod::Culling(c) => Some(c),
                _ => None,
            },
    {
        match self {
            DrawMethod::Both(_, c) => Some(*c),
            DrawMethod::Culling(c) => Some(*c),
            _ => None,
        }
    }
}

/// How the window is opened: decorated with a given size and title, or borderless over
/// the whole screen.
#[derive(Clone, Debug)]
pub enum WindowArgs {
    Windowed(u32, u32, String),
    Borderless(String),
}

/// Where a window of `size` goes so that it sits in the middle of a screen of `screen`.
pub fn centered_position(screen: (u32, u32), size: (u32, u32)) -> (r: (i32, i32))
    requires
        size.0 <= screen.0,
        size.1 <= screen.1,
    ensures
        r.0 == (screen.0 - size.0) / 2,
        r.1 == (screen.1 - size.1) / 2,
{
    (((screen.0 - size.0) / 2) as i32, ((screen.1 - size.1) / 2) as i32)
}

} // verus!
