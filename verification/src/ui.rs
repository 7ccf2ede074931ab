//! The immediate-mode drawing surface: a stack of layout contexts that
//! assigns every emitted widget its position and style, and the draw
//! commands of the current frame. The interface is redrawn from scratch
//! every frame; the stack is empty at the start and at the end of each one,
//! and an unbalanced begin/end is a precondition violation, not a runtime
//! condition.
//!
//! Drawing is represented as data: each label becomes a [`DrawCmd`] to be
//! painted by the terminal backend, and an edit field additionally places
//! the terminal's text cursor.

use vstd::prelude::*;
use crate::layout::{Layout, LayoutKind};
use crate::vec2::Vec2;

verus! {

/// The style of ordinary text.
pub const REGULAR_PAIR: i16 = 0;

/// The style of the current item of the focused panel.
pub const HIGHLIGHT_PAIR: i16 = 1;

/// One text run to draw: its cell position, its text, the fixed width of the
/// cell region it reserves, and its style.
pub struct DrawCmd {
    pub pos: Vec2,
    pub text: String,
    pub width: i32,
    pub style: i16,
}

/// The per-frame drawing state: the stack of open layout contexts, the draw
/// commands emitted so far, and the terminal caret position requested by an
/// edit field, if any.
pub struct Ui {
    pub stack: Vec<Layout>,
    pub cmds: Vec<DrawCmd>,
    pub caret: Option<Vec2>,
}

impl Ui {
    /// Every open layout context sits on the grid.
    pub open spec fn stack_wf(self) -> bool {
        forall|i: int| 0 <= i < self.stack@.len() ==> (#[trigger] self.stack@[i]).wf()
    }

    /// The innermost open context.
    pub open spec fn top(self) -> Layout {
        self.stack@.last()
    }

    /// A surface with no open context and no commands.
    pub fn new() -> (r: Ui)
        ensures
            r.stack@.len() == 0,
            r.cmds@.len() == 0,
            r.caret is None,
    {
        Ui { stack: Vec::new(), cmds: Vec::new(), caret: None }
    }

    /// Open the root context of a fresh frame at `origin`, discarding the
    /// previous frame's commands and caret.
    pub fn begin(&mut self, origin: Vec2, kind: LayoutKind)
        requires
            old(self).stack@.len() == 0,
            0 <= origin.x,
            0 <= origin.y,
        ensures
            final(self).stack@ == seq![
                (Layout { kind, pos: origin, size: (Vec2 { x: 0, y: 0 }) }),
            ],
            final(self).cmds@.len() == 0,
            final(self).caret is None,
            final(self).stack_wf(),
    {
        self.cmds = Vec::new();
        self.caret = None;
        self.stack.push(Layout { kind, pos: origin, size: Vec2 { x: 0, y: 0 } });
    }

    /// Open a child context anchored at the current available position of
    /// the innermost one.
    pub fn begin_layout(&mut self, kind: LayoutKind)
        requires
            old(self).stack@.len() > 0,
            old(self).stack_wf(),
        ensures
            final(self).stack@.len() == old(self).stack@.len() + 1,
            final(self).stack@ == old(self).stack@.push(final(self).top()),
            final(self).top().kind == kind,
            final(self).top().pos.x == old(self).top().avail_x(),
            final(self).top().pos.y == old(self).top().avail_y(),
            final(self).top().size == (Vec2 { x: 0, y: 0 }),
            final(self).cmds@ == old(self).cmds@,
            final(self).caret == old(self).caret,
            final(self).stack_wf(),
    {
        let top = self.stack[self.stack.len() - 1];
        let pos = top.available_pos();
        self.stack.push(Layout { kind, pos, size: Vec2 { x: 0, y: 0 } });
    }

    /// Close the innermost context and fold the size it consumed into its
    /// parent, as one widget of that size.
    pub fn end_layout(&mut self)
        requires
            old(self).stack@.len() >= 2,
            old(self).stack_wf(),
            old(self).stack@[old(self).stack@.len() - 2].fits(old(self).top().size),
        ensures
            final(self).stack@.len() == old(self).stack@.len() - 1,
            final(self).stack@ == old(self).stack@.subrange(
                0,
                old(self).stack@.len() - 2,
            ).push(final(self).top()),
            final(self).top().kind == old(self).stack@[old(self).stack@.len() - 2].kind,
            final(self).top().pos == old(self).stack@[old(self).stack@.len() - 2].pos,
            final(self).top().size.x == old(self).stack@[old(self).stack@.len() - 2].grown(
                old(self).top().size,
            ).0,
            final(self).top().size.y == old(self).stack@[old(self).stack@.len() - 2].grown(
                old(self).top().size,
            ).1,
            final(self).cmds@ == old(self).cmds@,
            final(self).caret == old(self).caret,
            final(self).stack_wf(),
    {
        let child = self.stack.pop().unwrap();
        let n = self.stack.len();
        let mut parent = self.stack[n - 1];
        parent.add_widget(child.size);
        self.stack[n - 1] = parent;
        proof {
            assert(self.stack@ =~= old(self).stack@.subrange(
                0,
                old(self).stack@.len() - 2,
            ).push(self.stack@.last()));
        }
    }

    /// Close the root context, ending the frame.
    pub fn end(&mut self)
        requires
            old(self).stack@.len() == 1,
        ensures
            final(self).stack@.len() == 0,
            final(self).cmds@ == old(self).cmds@,
            final(self).caret == old(self).caret,
    {
        let _ = self.stack.pop();
    }

    /// Draw `text` at the innermost context's available position with the
    /// given style, reserving a region of `width` columns and one row.
    pub fn label_fixed_width(&mut self, text: &str, width: i32, style: i16)
        requires
            old(self).stack@.len() > 0,
            old(self).stack_wf(),
            0 <= width,
            old(self).top().fits((Vec2 { x: width, y: 1 })),
        ensures
            final(self).stack@.len() == old(self).stack@.len(),
            final(self).stack@ == old(self).stack@.subrange(
                0,
                old(self).stack@.len() - 1,
            ).push(final(self).top()),
            final(self).top().kind == old(self).top().kind,
            final(self).top().pos == old(self).top().pos,
            final(self).top().size.x == old(self).top().grown((Vec2 { x: width, y: 1 })).0,
            final(self).top().size.y == old(self).top().grown((Vec2 { x: width, y: 1 })).1,
            final(self).cmds@.len() == old(self).cmds@.len() + 1,
            final(self).cmds@ == old(self).cmds@.push(final(self).cmds@.last()),
            final(self).cmds@.last().pos.x == old(self).top().avail_x(),
            final(self).cmds@.last().pos.y == old(self).top().avail_y(),
            final(self).cmds@.last().text@ == text@,
            final(self).cmds@.last().width == width,
            final(self).cmds@.last().style == style,
            final(self).caret == old(self).caret,
            final(self).stack_wf(),
    {
        let n = self.stack.len();
        let mut top = self.stack[n - 1];
        let pos = top.available_pos();
        self.cmds.push(DrawCmd { pos, text: text.to_owned(), width, style });
        top.add_widget(Vec2::new(width, 1));
        self.stack[n - 1] = top;
        proof {
            assert(self.stack@ =~= old(self).stack@.subrange(
                0,
                old(self).stack@.len() - 1,
            ).push(self.stack@.last()));
        }
    }

    /// Draw the live-editing form of `text`: the text itself in the regular
    /// style, with the terminal's caret placed at character offset `cursor`
    /// within it. Reserves the same region as a label of the same width.
    pub fn edit_field(&mut self, text: &str, cursor: usize, width: i32)
        requires
            old(self).stack@.len() > 0,
            old(self).stack_wf(),
            0 <= width,
            old(self).top().fits((Vec2 { x: width, y: 1 })),
            old(self).top().avail_x() + cursor <= i32::MAX,
        ensures
            final(self).stack@.len() == old(self).stack@.len(),
            final(self).stack@ == old(self).stack@.subrange(
                0,
                old(self).stack@.len() - 1,
            ).push(final(self).top()),
            final(self).top().kind == old(self).top().kind,
            final(self).top().pos == old(self).top().pos,
            final(self).top().size.x == old(self).top().grown((Vec2 { x: width, y: 1 })).0,
            final(self).top().size.y == old(self).top().grown((Vec2 { x: width, y: 1 })).1,
            final(self).cmds@.len() == old(self).cmds@.len() + 1,
            final(self).cmds@ == old(self).cmds@.push(final(self).cmds@.last()),
            final(self).cmds@.last().pos.x == old(self).top().avail_x(),
            final(self).cmds@.last().pos.y == old(self).top().avail_y(),
            final(self).cmds@.last().text@ == text@,
            final(self).cmds@.last().width == width,
            final(self).cmds@.last().style == REGULAR_PAIR,
            final(self).caret matches Some(p) && p.x == old(self).top().avail_x() + cursor && p.y
                == old(self).top().avail_y(),
            final(self).stack_wf(),
    {
        let n = self.stack.len();
        let mut top = self.stack[n - 1];
        let pos = top.available_pos();
        self.cmds.push(DrawCmd { pos, text: text.to_owned(), width, style: REGULAR_PAIR });
        self.caret = Some(Vec2::new(pos.x + (cursor as i32), pos.y));
        top.add_widget(Vec2::new(width, 1));
        self.stack[n - 1] = top;
        proof {
            assert(self.stack@ =~= old(self).stack@.subrange(
                0,
                old(self).stack@.len() - 1,
            ).push(self.stack@.last()));
        }
    }
}

} // verus!
