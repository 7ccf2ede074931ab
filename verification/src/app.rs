//! The modal interaction state machine: panel focus, the two selection
//! cursors, the transient edit session and the notification line. One
//! logical input event is consumed per frame; the whole effect of an event
//! is given by [`step_spec`].

use vstd::prelude::*;
use crate::edit::{insert_char, remove_char};
use crate::keys::KeyInput;
use crate::lists::{
    clamp_cursor_spec, cursor_down_spec, cursor_last_spec, cursor_ok, cursor_up_spec,
    delete_spec, drag_down_spec, drag_up_spec, list_delete, list_down, list_drag_down,
    list_drag_up, list_first, list_last, list_transfer, list_up, transfer_spec,
};
use crate::status::Status;
use vstd::string::StrSliceExecFns;
use vstd::string::StringExecFns;

verus! {

/// The mathematical state of the interface: the two lists as sequences of
/// character sequences, their cursors, the focused panel, the edit session
/// and the notification line.
#[verifier::ext_equal]
pub ghost struct Model {
    pub todos: Seq<Seq<char>>,
    pub todo_curr: nat,
    pub dones: Seq<Seq<char>>,
    pub done_curr: nat,
    pub panel: Status,
    pub editing: bool,
    pub edit_curr: nat,
    pub notice: Seq<char>,
    pub quit: bool,
}

impl Model {
    /// The list of the focused panel.
    pub open spec fn focused(self) -> Seq<Seq<char>> {
        if self.panel == Status::Todo {
            self.todos
        } else {
            self.dones
        }
    }

    /// The cursor of the focused panel.
    pub open spec fn focused_curr(self) -> nat {
        if self.panel == Status::Todo {
            self.todo_curr
        } else {
            self.done_curr
        }
    }

    /// The state with the focused panel's list and cursor replaced.
    pub open spec fn with_focused(self, l: Seq<Seq<char>>, c: nat) -> Model {
        if self.panel == Status::Todo {
            Model { todos: l, todo_curr: c, ..self }
        } else {
            Model { dones: l, done_curr: c, ..self }
        }
    }

    /// Well-formedness: both cursors are valid, and an active edit session
    /// points into the current item of the focused panel.
    pub open spec fn wf(self) -> bool {
        &&& cursor_ok(self.todos.len(), self.todo_curr)
        &&& cursor_ok(self.dones.len(), self.done_curr)
        &&& (self.editing ==> self.focused().len() > 0 && self.edit_curr
            <= self.focused()[self.focused_curr() as int].len())
    }
}

/// The notification shown when an insert command opens a fresh item.
pub open spec fn insert_notice() -> Seq<char> {
    "What needs to be done?"@
}

/// The notification shown when a change command clears an item.
pub open spec fn change_notice() -> Seq<char> {
    "Change item..."@
}

/// The notification shown when a DONE item is deleted.
pub open spec fn delete_notice() -> Seq<char> {
    "Into The Abyss!"@
}

/// The notification shown when an insert command is rejected on DONE.
pub open spec fn reject_insert_notice() -> Seq<char> {
    "Can't insert new DONE items. Only TODO is allowed."@
}

/// The notification shown when a delete command is rejected on TODO.
pub open spec fn reject_delete_notice() -> Seq<char> {
    "Can't delete TODO items. Mark them DONE first."@
}

/// The notification shown when a TODO item is marked done.
pub open spec fn transfer_done_notice() -> Seq<char> {
    "DONE!"@
}

/// The notification shown when a DONE item is moved back.
pub open spec fn transfer_back_notice() -> Seq<char> {
    "No, not done yet..."@
}

/// The effect of one input event while a text edit session is active: a
/// printable character is inserted at the edit cursor, Backspace removes the
/// character before it, the arrow keys move it within the text, and Enter or
/// Escape commits the session. Every other event is discarded.
pub open spec fn edit_step_spec(m: Model, k: KeyInput) -> Model {
    let item = m.focused()[m.focused_curr() as int];
    match k {
        KeyInput::Char(c) => Model {
            edit_curr: m.edit_curr + 1,
            ..m.with_focused(
                m.focused().update(m.focused_curr() as int, item.insert(m.edit_curr as int, c)),
                m.focused_curr(),
            )
        },
        KeyInput::Backspace => {
            if m.edit_curr > 0 {
                Model {
                    edit_curr: (m.edit_curr - 1) as nat,
                    ..m.with_focused(
                        m.focused().update(
                            m.focused_curr() as int,
                            item.remove(m.edit_curr - 1),
                        ),
                        m.focused_curr(),
                    )
                }
            } else {
                m
            }
        },
        KeyInput::Left => Model { edit_curr: cursor_up_spec(m.edit_curr), ..m },
        KeyInput::Right => Model {
            edit_curr: if m.edit_curr < item.len() {
                m.edit_curr + 1
            } else {
                m.edit_curr
            },
            ..m
        },
        KeyInput::Enter => Model { editing: false, ..m },
        KeyInput::Escape => Model { editing: false, ..m },
        _ => m,
    }
}

/// The effect of one input event in normal mode, per key:
/// `j`/`k` move the focused cursor, `g`/`G` jump to the ends, `J`/`K` drag
/// the current item, `i`/`o`/`O` insert a fresh item into TODO (rejected on
/// DONE with a notification), `c`/`C` clear the current item and edit it,
/// `r` edits the current item at its end, `d`/`x` delete the current DONE
/// item (rejected on TODO with a notification), Enter transfers the current
/// item to the tail of the other list, Tab toggles the focused panel while
/// `h`/`l` focus TODO and DONE directly, and `q` signals quit. Every other
/// event is discarded.
pub open spec fn normal_step_spec(m: Model, k: KeyInput) -> Model {
    match k {
        KeyInput::Char(c) => {
            if c == 'k' {
                m.with_focused(m.focused(), cursor_up_spec(m.focused_curr()))
            } else if c == 'j' {
                m.with_focused(m.focused(), cursor_down_spec(m.focused().len(), m.focused_curr()))
            } else if c == 'g' {
                m.with_focused(m.focused(), 0)
            } else if c == 'G' {
                m.with_focused(m.focused(), cursor_last_spec(m.focused().len(), m.focused_curr()))
            } else if c == 'K' {
                let r = drag_up_spec(m.focused(), m.focused_curr());
                m.with_focused(r.0, r.1)
            } else if c == 'J' {
                let r = drag_down_spec(m.focused(), m.focused_curr());
                m.with_focused(r.0, r.1)
            } else if c == 'i' || c == 'O' {
                if m.panel == Status::Todo {
                    Model {
                        editing: true,
                        edit_curr: 0,
                        notice: insert_notice(),
                        ..m.with_focused(
                            m.todos.insert(m.todo_curr as int, Seq::empty()),
                            m.todo_curr,
                        )
                    }
                } else {
                    Model { notice: reject_insert_notice(), ..m }
                }
            } else if c == 'o' {
                if m.panel == Status::Todo {
                    let pos: nat = if m.todos.len() == 0 {
                        0
                    } else {
                        m.todo_curr + 1
                    };
                    Model {
                        editing: true,
                        edit_curr: 0,
                        notice: insert_notice(),
                        ..m.with_focused(m.todos.insert(pos as int, Seq::empty()), pos)
                    }
                } else {
                    Model { notice: reject_insert_notice(), ..m }
                }
            } else if c == 'c' || c == 'C' {
                if m.focused_curr() < m.focused().len() {
                    Model {
                        editing: true,
                        edit_curr: 0,
                        notice: change_notice(),
                        ..m.with_focused(
                            m.focused().update(m.focused_curr() as int, Seq::empty()),
                            m.focused_curr(),
                        )
                    }
                } else {
                    m
                }
            } else if c == 'r' {
                if m.focused_curr() < m.focused().len() {
                    Model {
                        editing: true,
                        edit_curr: m.focused()[m.focused_curr() as int].len(),
                        ..m
                    }
                } else {
                    m
                }
            } else if c == 'd' || c == 'x' {
                if m.panel == Status::Done {
                    let r = delete_spec(m.dones, m.done_curr);
                    Model { dones: r.0, done_curr: r.1, notice: delete_notice(), ..m }
                } else {
                    Model { notice: reject_delete_notice(), ..m }
                }
            } else if c == 'h' {
                Model { panel: Status::Todo, ..m }
            } else if c == 'l' {
                Model { panel: Status::Done, ..m }
            } else if c == 'q' {
                Model { quit: true, ..m }
            } else {
                m
            }
        },
        KeyInput::Enter => {
            if m.panel == Status::Todo {
                let r = transfer_spec(m.dones, m.todos, m.todo_curr);
                Model { dones: r.0, todos: r.1, todo_curr: r.2, notice: transfer_done_notice(), ..m }
            } else {
                let r = transfer_spec(m.todos, m.dones, m.done_curr);
                Model { todos: r.0, dones: r.1, done_curr: r.2, notice: transfer_back_notice(), ..m }
            }
        },
        KeyInput::Tab => Model { panel: m.panel.spec_toggle(), ..m },
        _ => m,
    }
}

/// The whole effect of one key event: the notification line is cleared, then
/// the event acts in the current mode.
pub open spec fn step_spec(m: Model, k: KeyInput) -> Model {
    let m0 = Model { notice: Seq::empty(), ..m };
    if m.editing {
        edit_step_spec(m0, k)
    } else {
        normal_step_spec(m0, k)
    }
}

/// One key event keeps the state well-formed.
pub proof fn lemma_step_wf(m: Model, k: KeyInput)
    requires
        m.wf(),
    ensures
        step_spec(m, k).wf(),
{
}

/// The whole interface state owned by the frame loop: the two lists, their
/// cursors, the focused panel, the edit session, the notification line and
/// the quit flag.
pub struct TodoApp {
    pub todos: Vec<String>,
    pub todo_curr: usize,
    pub dones: Vec<String>,
    pub done_curr: usize,
    pub panel: Status,
    pub editing: bool,
    pub edit_curr: usize,
    pub notification: String,
    pub quit: bool,
}

impl View for TodoApp {
    type V = Model;

    open spec fn view(&self) -> Model {
        Model {
            todos: self.todos.deep_view(),
            todo_curr: self.todo_curr as nat,
            dones: self.dones.deep_view(),
            done_curr: self.done_curr as nat,
            panel: self.panel,
            editing: self.editing,
            edit_curr: self.edit_curr as nat,
            notice: self.notification@,
            quit: self.quit,
        }
    }
}

impl TodoApp {
    /// A fresh session over the two loaded lists: TODO focused, both cursors
    /// at the first item, normal mode, the given initial notification.
    pub fn new(todos: Vec<String>, dones: Vec<String>, notification: String) -> (r: TodoApp)
        ensures
            r@ == (Model {
                todos: todos.deep_view(),
                todo_curr: 0,
                dones: dones.deep_view(),
                done_curr: 0,
                panel: Status::Todo,
                editing: false,
                edit_curr: 0,
                notice: notification@,
                quit: false,
            }),
            r@.wf(),
    {
        TodoApp {
            todos,
            todo_curr: 0,
            dones,
            done_curr: 0,
            panel: Status::Todo,
            editing: false,
            edit_curr: 0,
            notification,
            quit: false,
        }
    }

    /// One input event while an edit session is active.
    fn edit_step(&mut self, k: KeyInput)
        requires
            old(self)@.wf(),
            old(self)@.editing,
        ensures
            final(self)@ == edit_step_spec(old(self)@, k),
    {
        match k {
            KeyInput::Char(c) => {
                if self.panel == Status::Todo {
                    let i = self.todo_curr;
                    let ni = insert_char(self.todos[i].as_str(), self.edit_curr, c);
                    let nlen = ni.as_str().unicode_len();
                    self.todos[i] = ni;
                    self.edit_curr = self.edit_curr + 1;
                    proof {
                        let m = old(self)@;
                        assert(self.todos.deep_view() =~= m.todos.update(
                            i as int,
                            m.todos[i as int].insert(m.edit_curr as int, c),
                        ));
                        assert(self@ =~= edit_step_spec(m, k));
                    }
                } else {
                    let i = self.done_curr;
                    let ni = insert_char(self.dones[i].as_str(), self.edit_curr, c);
                    let nlen = ni.as_str().unicode_len();
                    self.dones[i] = ni;
                    self.edit_curr = self.edit_curr + 1;
                    proof {
                        let m = old(self)@;
                        assert(self.dones.deep_view() =~= m.dones.update(
                            i as int,
                            m.dones[i as int].insert(m.edit_curr as int, c),
                        ));
                        assert(self@ =~= edit_step_spec(m, k));
                    }
                }
            },
            KeyInput::Backspace => {
                if self.edit_curr > 0 {
                    if self.panel == Status::Todo {
                        let i = self.todo_curr;
                        let ni = remove_char(self.todos[i].as_str(), self.edit_curr - 1);
                        self.todos[i] = ni;
                        self.edit_curr = self.edit_curr - 1;
                        proof {
                            let m = old(self)@;
                            assert(self.todos.deep_view() =~= m.todos.update(
                                i as int,
                                m.todos[i as int].remove(m.edit_curr - 1),
                            ));
                            assert(self@ =~= edit_step_spec(m, k));
                        }
                    } else {
                        let i = self.done_curr;
                        let ni = remove_char(self.dones[i].as_str(), self.edit_curr - 1);
                        self.dones[i] = ni;
                        self.edit_curr = self.edit_curr - 1;
                        proof {
                            let m = old(self)@;
                            assert(self.dones.deep_view() =~= m.dones.update(
                                i as int,
                                m.dones[i as int].remove(m.edit_curr - 1),
                            ));
                            assert(self@ =~= edit_step_spec(m, k));
                        }
                    }
                }
            },
            KeyInput::Left => {
                if self.edit_curr > 0 {
                    self.edit_curr = self.edit_curr - 1;
                }
            },
            KeyInput::Right => {
                let len = if self.panel == Status::Todo {
                    self.todos[self.todo_curr].as_str().unicode_len()
                } else {
                    self.dones[self.done_curr].as_str().unicode_len()
                };
                if self.edit_curr < len {
                    self.edit_curr = self.edit_curr + 1;
                }
            },
            KeyInput::Enter => {
                self.editing = false;
            },
            KeyInput::Escape => {
                self.editing = false;
            },
            _ => {},
        }
    }

    /// One input event in normal mode.
    fn normal_step(&mut self, k: KeyInput)
        requires
            old(self)@.wf(),
            !old(self)@.editing,
        ensures
            final(self)@ == normal_step_spec(old(self)@, k),
    {
        match k {
            KeyInput::Char(c) => {
                if c == 'k' {
                    if self.panel == Status::Todo {
                        list_up(&mut self.todo_curr);
                    } else {
                        list_up(&mut self.done_curr);
                    }
                } else if c == 'j' {
                    if self.panel == Status::Todo {
                        list_down(&self.todos, &mut self.todo_curr);
                    } else {
                        list_down(&self.dones, &mut self.done_curr);
                    }
                } else if c == 'g' {
                    if self.panel == Status::Todo {
                        list_first(&mut self.todo_curr);
                    } else {
                        list_first(&mut self.done_curr);
                    }
                } else if c == 'G' {
                    if self.panel == Status::Todo {
                        list_last(&self.todos, &mut self.todo_curr);
                    } else {
                        list_last(&self.dones, &mut self.done_curr);
                    }
                } else if c == 'K' {
                    if self.panel == Status::Todo {
                        list_drag_up(&mut self.todos, &mut self.todo_curr);
                    } else {
                        list_drag_up(&mut self.dones, &mut self.done_curr);
                    }
                } else if c == 'J' {
                    if self.panel == Status::Todo {
                        list_drag_down(&mut self.todos, &mut self.todo_curr);
                    } else {
                        list_drag_down(&mut self.dones, &mut self.done_curr);
                    }
                } else if c == 'i' || c == 'O' {
                    if self.panel == Status::Todo {
                        self.todos.insert(self.todo_curr, String::new());
                        self.editing = true;
                        self.edit_curr = 0;
                        self.notification = String::from_str("What needs to be done?");
                        proof {
                            let m = old(self)@;
                            assert(self.todos.deep_view() =~= m.todos.insert(
                                m.todo_curr as int,
                                Seq::empty(),
                            ));
                            assert(self@ =~= normal_step_spec(m, k));
                        }
                    } else {
                        self.notification = String::from_str(
                            "Can't insert new DONE items. Only TODO is allowed.",
                        );
                    }
                } else if c == 'o' {
                    if self.panel == Status::Todo {
                        let pos = if self.todos.len() == 0 {
                            0
                        } else {
                            self.todo_curr + 1
                        };
                        self.todos.insert(pos, String::new());
                        self.todo_curr = pos;
                        self.editing = true;
                        self.edit_curr = 0;
                        self.notification = String::from_str("What needs to be done?");
                        proof {
                            let m = old(self)@;
                            assert(self.todos.deep_view() =~= m.todos.insert(
                                pos as int,
                                Seq::empty(),
                            ));
                            assert(self@ =~= normal_step_spec(m, k));
                        }
                    } else {
                        self.notification = String::from_str(
                            "Can't insert new DONE items. Only TODO is allowed.",
                        );
                    }
                } else if c == 'c' || c == 'C' {
                    if self.panel == Status::Todo {
                        if self.todo_curr < self.todos.len() {
                            self.todos[self.todo_curr] = String::new();
                            self.editing = true;
                            self.edit_curr = 0;
                            self.notification = String::from_str("Change item...");
                            proof {
                                let m = old(self)@;
                                assert(self.todos.deep_view() =~= m.todos.update(
                                    m.todo_curr as int,
                                    Seq::empty(),
                                ));
                                assert(self@ =~= normal_step_spec(m, k));
                            }
                        }
                    } else {
                        if self.done_curr < self.dones.len() {
                            self.dones[self.done_curr] = String::new();
                            self.editing = true;
                            self.edit_curr = 0;
                            self.notification = String::from_str("Change item...");
                            proof {
                                let m = old(self)@;
                                assert(self.dones.deep_view() =~= m.dones.update(
                                    m.done_curr as int,
                                    Seq::empty(),
                                ));
                                assert(self@ =~= normal_step_spec(m, k));
                            }
                        }
                    }
                } else if c == 'r' {
                    if self.panel == Status::Todo {
                        if self.todo_curr < self.todos.len() {
                            self.edit_curr = self.todos[self.todo_curr].as_str().unicode_len();
                            self.editing = true;
                        }
                    } else {
                        if self.done_curr < self.dones.len() {
                            self.edit_curr = self.dones[self.done_curr].as_str().unicode_len();
                            self.editing = true;
                        }
                    }
                } else if c == 'd' || c == 'x' {
                    if self.panel == Status::Done {
                        list_delete(&mut self.dones, &mut self.done_curr);
                        self.notification = String::from_str("Into The Abyss!");
                    } else {
                        self.notification = String::from_str(
                            "Can't delete TODO items. Mark them DONE first.",
                        );
                    }
                } else if c == 'h' {
                    self.panel = Status::Todo;
                } else if c == 'l' {
                    self.panel = Status::Done;
                } else if c == 'q' {
                    self.quit = true;
                }
            },
            KeyInput::Enter => {
                if self.panel == Status::Todo {
                    list_transfer(&mut self.dones, &mut self.todos, &mut self.todo_curr);
                    self.notification = String::from_str("DONE!");
                } else {
                    list_transfer(&mut self.todos, &mut self.dones, &mut self.done_curr);
                    self.notification = String::from_str("No, not done yet...");
                }
            },
            KeyInput::Tab => {
                self.panel = self.panel.toggle();
            },
            _ => {},
        }
    }

    /// Consume one input event: clear the notification line, then act in the
    /// current mode. The whole effect is [`step_spec`]; the state stays
    /// well-formed.
    pub fn step(&mut self, k: KeyInput)
        requires
            old(self)@.wf(),
        ensures
            final(self)@ == step_spec(old(self)@, k),
            final(self)@.wf(),
    {
        self.notification = String::new();
        proof {
            assert(self@ =~= (Model { notice: Seq::empty(), ..old(self)@ }));
            lemma_step_wf(old(self)@, k);
        }
        if self.editing {
            self.edit_step(k);
        } else {
            self.normal_step(k);
        }
    }
}

} // verus!
