//! One frame of the interface, rendered through the layout engine: the
//! notification line, a blank spacer, and the two panels side by side, each
//! a header over its items. The current item of the focused panel is
//! highlighted, or shown as a live edit field while an edit session is
//! active. The contract pins down every command of the frame: its position,
//! text, reserved width and style, and the caret placement.

use vstd::prelude::*;
use crate::app::{Model, TodoApp};
use crate::layout::LayoutKind;
use crate::status::Status;
use crate::ui::{DrawCmd, Ui, HIGHLIGHT_PAIR, REGULAR_PAIR};
use crate::vec2::Vec2;
use vstd::string::StringExecFns;

verus! {

/// The largest terminal width and list length the renderer accepts; keeps
/// every computed cell coordinate well inside the grid.
pub const RENDER_LIMIT: usize = 1000000;

/// The display line of a TODO item.
pub open spec fn todo_line(t: Seq<char>) -> Seq<char> {
    "- [ ] "@ + t
}

/// The display line of a DONE item.
pub open spec fn done_line(t: Seq<char>) -> Seq<char> {
    "- [x] "@ + t
}

/// One draw command, fully described.
pub open spec fn cmd_is(c: DrawCmd, x: int, y: int, text: Seq<char>, width: int, style: i16) -> bool {
    &&& c.pos.x == x
    &&& c.pos.y == y
    &&& c.text@ == text
    &&& c.width == width
    &&& c.style == style
}

/// The style of a panel header: highlighted exactly when that panel has
/// focus.
pub open spec fn header_style(m: Model, p: Status) -> i16 {
    if m.panel == p {
        HIGHLIGHT_PAIR
    } else {
        REGULAR_PAIR
    }
}

/// The command drawn for TODO item `i`: the edit field of the item's raw
/// text when it is being edited, otherwise its display line, highlighted
/// exactly when it is the current item of the focused panel.
pub open spec fn todo_cmd_ok(m: Model, i: int, w2: int, c: DrawCmd) -> bool {
    if m.panel == Status::Todo && i == m.todo_curr {
        if m.editing {
            cmd_is(c, 0, 3 + i, m.todos[i], w2, REGULAR_PAIR)
        } else {
            cmd_is(c, 0, 3 + i, todo_line(m.todos[i]), w2, HIGHLIGHT_PAIR)
        }
    } else {
        cmd_is(c, 0, 3 + i, todo_line(m.todos[i]), w2, REGULAR_PAIR)
    }
}

/// The command drawn for DONE item `i`, in the right half of the screen.
pub open spec fn done_cmd_ok(m: Model, i: int, w2: int, c: DrawCmd) -> bool {
    if m.panel == Status::Done && i == m.done_curr {
        if m.editing {
            cmd_is(c, w2, 3 + i, m.dones[i], w2, REGULAR_PAIR)
        } else {
            cmd_is(c, w2, 3 + i, done_line(m.dones[i]), w2, HIGHLIGHT_PAIR)
        }
    } else {
        cmd_is(c, w2, 3 + i, done_line(m.dones[i]), w2, REGULAR_PAIR)
    }
}

/// The terminal caret: placed at the edit cursor within the edited item's
/// row while an edit session is active, hidden otherwise.
pub open spec fn caret_ok(m: Model, w2: int, caret: Option<Vec2>) -> bool {
    if m.editing {
        caret matches Some(p) && p.y == 3 + m.focused_curr() && p.x == (if m.panel
            == Status::Todo {
            0int
        } else {
            w2
        }) + m.edit_curr
    } else {
        caret is None
    }
}

/// Render one frame of width `width`: the notification line, a blank line,
/// then the two panels side by side in the two halves of the width. The
/// returned surface holds exactly one command per drawn row, as given by the
/// clauses below, and a balanced (empty) layout stack.
pub fn render_frame(app: &TodoApp, width: i32) -> (r: Ui)
    requires
        app@.wf(),
        0 <= width <= RENDER_LIMIT,
        app@.todos.len() <= RENDER_LIMIT,
        app@.dones.len() <= RENDER_LIMIT,
        app@.editing ==> app@.edit_curr <= RENDER_LIMIT,
    ensures
        r.stack@.len() == 0,
        r.cmds@.len() == 4 + app@.todos.len() + app@.dones.len(),
        cmd_is(r.cmds@[0], 0, 0, app@.notice, width as int, REGULAR_PAIR),
        cmd_is(r.cmds@[1], 0, 1, Seq::empty(), width as int, REGULAR_PAIR),
        cmd_is(r.cmds@[2], 0, 2, "TODO"@, width as int / 2, header_style(app@, Status::Todo)),
        forall|i: int|
            0 <= i < app@.todos.len() ==> todo_cmd_ok(app@, i, width as int / 2, #[trigger] r.cmds@[3 + i]),
        cmd_is(
            r.cmds@[3 + app@.todos.len() as int],
            width as int / 2,
            2,
            "DONE"@,
            width as int / 2,
            header_style(app@, Status::Done),
        ),
        forall|i: int|
            0 <= i < app@.dones.len() ==> done_cmd_ok(
                app@,
                i,
                width as int / 2,
                #[trigger] r.cmds@[4 + app@.todos.len() + i],
            ),
        caret_ok(app@, width as int / 2, r.caret),
{
    let ghost m = app@;
    let w2 = width / 2;
    let mut ui = Ui::new();
    ui.begin(Vec2::new(0, 0), LayoutKind::Vert);
    ui.label_fixed_width(app.notification.as_str(), width, REGULAR_PAIR);
    ui.label_fixed_width("", width, REGULAR_PAIR);
    proof {
        reveal_strlit("");
        assert(ui.cmds@[1].text@ =~= Seq::<char>::empty());
    }
    ui.begin_layout(LayoutKind::Horz);
    ui.begin_layout(LayoutKind::Vert);
    let tstyle = if app.panel == Status::Todo {
        HIGHLIGHT_PAIR
    } else {
        REGULAR_PAIR
    };
    ui.label_fixed_width("TODO", w2, tstyle);
    let mut i: usize = 0;
    while i < app.todos.len()
        invariant
            m == app@,
            m.wf(),
            0 <= width <= RENDER_LIMIT,
            m.todos.len() <= RENDER_LIMIT,
            m.dones.len() <= RENDER_LIMIT,
            m.editing ==> m.edit_curr <= RENDER_LIMIT,
            w2 == width / 2,
            i <= m.todos.len(),
            ui.stack@.len() == 3,
            ui.stack_wf(),
            ui.stack@[0].kind == LayoutKind::Vert,
            ui.stack@[0].pos.x == 0 && ui.stack@[0].pos.y == 0,
            ui.stack@[0].size.x == width && ui.stack@[0].size.y == 2,
            ui.stack@[1].kind == LayoutKind::Horz,
            ui.stack@[1].pos.x == 0 && ui.stack@[1].pos.y == 2,
            ui.stack@[1].size.x == 0 && ui.stack@[1].size.y == 0,
            ui.stack@[2].kind == LayoutKind::Vert,
            ui.stack@[2].pos.x == 0 && ui.stack@[2].pos.y == 2,
            ui.stack@[2].size.x == w2 && ui.stack@[2].size.y == 1 + i,
            ui.cmds@.len() == 3 + i,
            cmd_is(ui.cmds@[0], 0, 0, m.notice, width as int, REGULAR_PAIR),
            cmd_is(ui.cmds@[1], 0, 1, Seq::empty(), width as int, REGULAR_PAIR),
            cmd_is(ui.cmds@[2], 0, 2, "TODO"@, w2 as int, header_style(m, Status::Todo)),
            forall|j: int| 0 <= j < i ==> todo_cmd_ok(m, j, w2 as int, #[trigger] ui.cmds@[3 + j]),
            if m.editing && m.panel == Status::Todo && m.todo_curr < i {
                caret_ok(m, w2 as int, ui.caret)
            } else {
                ui.caret is None
            },
        decreases m.todos.len() - i,
    {
        if app.panel == Status::Todo && i == app.todo_curr && app.editing {
            ui.edit_field(app.todos[i].as_str(), app.edit_curr, w2);
        } else {
            let line = String::from_str("- [ ] ").concat(app.todos[i].as_str());
            let style = if app.panel == Status::Todo && i == app.todo_curr {
                HIGHLIGHT_PAIR
            } else {
                REGULAR_PAIR
            };
            ui.label_fixed_width(line.as_str(), w2, style);
        }
        i = i + 1;
    }
    ui.end_layout();
    ui.begin_layout(LayoutKind::Vert);
    let dstyle = if app.panel == Status::Done {
        HIGHLIGHT_PAIR
    } else {
        REGULAR_PAIR
    };
    ui.label_fixed_width("DONE", w2, dstyle);
    let ghost nt = m.todos.len();
    let mut i: usize = 0;
    while i < app.dones.len()
        invariant
            m == app@,
            m.wf(),
            0 <= width <= RENDER_LIMIT,
            m.todos.len() <= RENDER_LIMIT,
            m.dones.len() <= RENDER_LIMIT,
            m.editing ==> m.edit_curr <= RENDER_LIMIT,
            w2 == width / 2,
            nt == m.todos.len(),
            i <= m.dones.len(),
            ui.stack@.len() == 3,
            ui.stack_wf(),
            ui.stack@[0].kind == LayoutKind::Vert,
            ui.stack@[0].pos.x == 0 && ui.stack@[0].pos.y == 0,
            ui.stack@[0].size.x == width && ui.stack@[0].size.y == 2,
            ui.stack@[1].kind == LayoutKind::Horz,
            ui.stack@[1].pos.x == 0 && ui.stack@[1].pos.y == 2,
            ui.stack@[1].size.x == w2 && ui.stack@[1].size.y == 1 + nt,
            ui.stack@[2].kind == LayoutKind::Vert,
            ui.stack@[2].pos.x == w2 && ui.stack@[2].pos.y == 2,
            ui.stack@[2].size.x == w2 && ui.stack@[2].size.y == 1 + i,
            ui.cmds@.len() == 4 + nt + i,
            cmd_is(ui.cmds@[0], 0, 0, m.notice, width as int, REGULAR_PAIR),
            cmd_is(ui.cmds@[1], 0, 1, Seq::empty(), width as int, REGULAR_PAIR),
            cmd_is(ui.cmds@[2], 0, 2, "TODO"@, w2 as int, header_style(m, Status::Todo)),
            forall|j: int| 0 <= j < nt ==> todo_cmd_ok(m, j, w2 as int, #[trigger] ui.cmds@[3 + j]),
            cmd_is(ui.cmds@[3 + nt as int], w2 as int, 2, "DONE"@, w2 as int, header_style(m, Status::Done)),
            forall|j: int| 0 <= j < i ==> done_cmd_ok(m, j, w2 as int, #[trigger] ui.cmds@[4 + nt + j]),
            if m.editing && (m.panel == Status::Todo || m.done_curr < i) {
                caret_ok(m, w2 as int, ui.caret)
            } else {
                ui.caret is None
            },
        decreases m.dones.len() - i,
    {
        if app.panel == Status::Done && i == app.done_curr && app.editing {
            ui.edit_field(app.dones[i].as_str(), app.edit_curr, w2);
        } else {
            let line = String::from_str("- [x] ").concat(app.dones[i].as_str());
            let style = if app.panel == Status::Done && i == app.done_curr {
                HIGHLIGHT_PAIR
            } else {
                REGULAR_PAIR
            };
            ui.label_fixed_width(line.as_str(), w2, style);
        }
        i = i + 1;
    }
    ui.end_layout();
    ui.end_layout();
    ui.end();
    ui
}

} // verus!
