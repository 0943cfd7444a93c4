use vstd::prelude::*;

verus! {

/// The edge of the screen a panel is docked to.
///
/// `Left` and `Right` are drawn as side panels, `Top` and `Bottom` as
/// top/bottom panels.
#[derive(Copy, Clone, Debug, PartialEq, Eq, Structural)]
pub enum Side {
    Left,
    Right,
    Top,
    Bottom,
}

impl Side {
    /// Whether a panel on this side is laid out horizontally next to the
    /// content, that is whether it is a side panel.
    pub open spec fn spec_is_lr(self) -> bool {
        self is Left || self is Right
    }

    /// True for `Left` and `Right`, false for `Top` and `Bottom`.
    pub fn is_lr(&self) -> (r: bool)
        ensures
            r == self.spec_is_lr(),
    {
        match self {
            Side::Left | Side::Right => true,
            _ => false,
        }
    }
}

} // verus!
