//! One frame of layout state: a context stacks widgets either vertically or
//! horizontally from an anchor position, accumulating the total size the
//! widgets consumed. There is no retained widget tree and no content
//! measurement: every widget brings its own fixed size in character cells.

use vstd::prelude::*;
use vstd::math::max;
use crate::vec2::Vec2;

verus! {

/// The stacking direction of a layout context.
#[derive(Copy, Clone, PartialEq, Eq, Structural, Debug)]
pub enum LayoutKind {
    Vert,
    Horz,
}

/// One layout context: its stacking direction, its anchor position on the
/// grid, and the total size consumed by the widgets placed in it so far.
#[derive(Copy, Clone, PartialEq, Eq, Structural, Debug)]
pub struct Layout {
    pub kind: LayoutKind,
    pub pos: Vec2,
    pub size: Vec2,
}

impl Layout {
    /// A context is well-formed when anchor and size are non-negative and
    /// their componentwise sum stays on the grid.
    pub open spec fn wf(self) -> bool {
        &&& 0 <= self.pos.x
        &&& 0 <= self.pos.y
        &&& 0 <= self.size.x
        &&& 0 <= self.size.y
        &&& self.pos.x + self.size.x <= i32::MAX
        &&& self.pos.y + self.size.y <= i32::MAX
    }

    /// Column of the next available drawing position: a horizontal context
    /// advances by the accumulated width, a vertical one stays at its anchor.
    pub open spec fn avail_x(self) -> int {
        match self.kind {
            LayoutKind::Horz => self.pos.x + self.size.x,
            LayoutKind::Vert => self.pos.x as int,
        }
    }

    /// Row of the next available drawing position: a vertical context
    /// advances by the accumulated height, a horizontal one stays at its
    /// anchor.
    pub open spec fn avail_y(self) -> int {
        match self.kind {
            LayoutKind::Horz => self.pos.y as int,
            LayoutKind::Vert => self.pos.y + self.size.y,
        }
    }

    /// The accumulated size after reserving a widget of size `w`: the
    /// main-axis size grows by the widget's, the cross-axis size becomes the
    /// maximum of the two.
    pub open spec fn grown(self, w: Vec2) -> (int, int) {
        match self.kind {
            LayoutKind::Horz => (self.size.x + w.x, max(self.size.y as int, w.y as int)),
            LayoutKind::Vert => (max(self.size.x as int, w.x as int), self.size.y + w.y),
        }
    }

    /// Whether a widget of size `w` still fits on the grid in this context.
    pub open spec fn fits(self, w: Vec2) -> bool {
        &&& 0 <= w.x
        &&& 0 <= w.y
        &&& self.pos.x + self.grown(w).0 <= i32::MAX
        &&& self.pos.y + self.grown(w).1 <= i32::MAX
    }

    /// The next available drawing position of this context.
    pub fn available_pos(&self) -> (r: Vec2)
        requires
            self.wf(),
        ensures
            r.x == self.avail_x(),
            r.y == self.avail_y(),
    {
        match self.kind {
            LayoutKind::Horz => self.pos.add(Vec2::new(self.size.x, 0)),
            LayoutKind::Vert => self.pos.add(Vec2::new(0, self.size.y)),
        }
    }

    /// Reserve a region of size `w` against this context.
    pub fn add_widget(&mut self, w: Vec2)
        requires
            old(self).wf(),
            old(self).fits(w),
        ensures
            final(self).kind == old(self).kind,
            final(self).pos == old(self).pos,
            final(self).size.x == old(self).grown(w).0,
            final(self).size.y == old(self).grown(w).1,
            final(self).wf(),
    {
        match self.kind {
            LayoutKind::Horz => {
                self.size.x = self.size.x + w.x;
                if w.y > self.size.y {
                    self.size.y = w.y;
                }
            },
            LayoutKind::Vert => {
                self.size.y = self.size.y + w.y;
                if w.x > self.size.x {
                    self.size.x = w.x;
                }
            },
        }
    }
}

} // verus!
