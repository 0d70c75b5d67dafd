//! The command registry: a table from command names to tagged editor
//! commands, together with the exact transition each command makes on
//! the editor state. Running an unknown name is a silent no-op, so the
//! resolver and the command line may both try names that do not exist.

use vstd::prelude::*;

use crate::cursor::spec_move_x;
use crate::cursor::spec_move_y;
use crate::cursor::spec_scroll_y;
use crate::mode::EditorMode;
use crate::state::EditorState;
use crate::text::join_text;

verus! {

/// The editor commands. Each one mutates the aggregate editor state and
/// nothing else; `Write` and `WriteQuit` only record the write request,
/// which the surrounding program performs.
#[derive(Clone, Copy, Debug, PartialEq, Eq, Structural)]
pub enum CommandKind {
    Quit,
    Write,
    WriteQuit,
    Left,
    Right,
    Up,
    Down,
    Top,
    Bottom,
    LineStart,
    LineEnd,
    ToNormal,
    ToCommand,
    ToInsert,
    ToVisual,
}

/// What running `kind` does: the exact relation between the state
/// before (`pre`) and after (`post`), with `vr` visible rows.
pub open spec fn spec_applied(kind: CommandKind, pre: EditorState, post: EditorState, vr: int) -> bool {
    match kind {
        CommandKind::Quit => post == (EditorState { is_quit: true, ..pre }),
        CommandKind::Write => {
            if pre.path is Some {
                &&& post == (EditorState { pending_write: post.pending_write, ..pre })
                &&& match post.pending_write {
                    Some(t) => t@ == join_text(pre.buf@),
                    None => false,
                }
            } else {
                post == pre
            }
        },
        CommandKind::WriteQuit => {
            if pre.path is Some {
                &&& post == (EditorState {
                    pending_write: post.pending_write,
                    quit_after_write: true,
                    ..pre
                })
                &&& match post.pending_write {
                    Some(t) => t@ == join_text(pre.buf@),
                    None => false,
                }
            } else {
                post == (EditorState { is_quit: true, ..pre })
            }
        },
        CommandKind::Left => {
            &&& post == (EditorState { cursor: post.cursor, offset: post.offset, ..pre })
            &&& post.cursor.col() == spec_move_x(
                pre.cursor.col(),
                -1,
                pre.buf@[pre.cursor.row()].len() as int,
            )
            &&& post.cursor.row() == pre.cursor.row()
            &&& post.offset.y == spec_scroll_y(pre.offset.y as int, post.cursor.row(), 0, vr)
            &&& post.offset.x == pre.offset.x
        },
        CommandKind::Right => {
            &&& post == (EditorState { cursor: post.cursor, offset: post.offset, ..pre })
            &&& post.cursor.col() == spec_move_x(
                pre.cursor.col(),
                1,
                pre.buf@[pre.cursor.row()].len() as int,
            )
            &&& post.cursor.row() == pre.cursor.row()
            &&& post.offset.y == spec_scroll_y(pre.offset.y as int, post.cursor.row(), 0, vr)
            &&& post.offset.x == pre.offset.x
        },
        CommandKind::Up => {
            &&& post == (EditorState { cursor: post.cursor, offset: post.offset, ..pre })
            &&& post.cursor.col() == pre.cursor.col()
            &&& post.cursor.row() == spec_move_y(pre.cursor.row(), -1, pre.buf@.len() as int)
            &&& post.offset.y == spec_scroll_y(pre.offset.y as int, post.cursor.row(), -1, vr)
            &&& post.offset.x == pre.offset.x
        },
        CommandKind::Down => {
            &&& post == (EditorState { cursor: post.cursor, offset: post.offset, ..pre })
            &&& post.cursor.col() == pre.cursor.col()
            &&& post.cursor.row() == spec_move_y(pre.cursor.row(), 1, pre.buf@.len() as int)
            &&& post.offset.y == spec_scroll_y(pre.offset.y as int, post.cursor.row(), 1, vr)
            &&& post.offset.x == pre.offset.x
        },
        CommandKind::Top => {
            &&& post == (EditorState { cursor: post.cursor, offset: post.offset, ..pre })
            &&& post.cursor.col() == pre.cursor.col()
            &&& post.cursor.row() == 0
            &&& post.offset.y == 0
            &&& post.offset.x == pre.offset.x
        },
        CommandKind::Bottom => {
            &&& post == (EditorState { cursor: post.cursor, offset: post.offset, ..pre })
            &&& post.cursor.col() == pre.cursor.col()
            &&& post.cursor.row() == pre.buf@.len() - 1
            &&& post.offset.y == pre.buf@.len() - 1
            &&& post.offset.x == pre.offset.x
        },
        CommandKind::LineStart => {
            &&& post == (EditorState { cursor: post.cursor, ..pre })
            &&& post.cursor.col() == 0
            &&& post.cursor.row() == pre.cursor.row()
        },
        CommandKind::LineEnd => {
            &&& post == (EditorState { cursor: post.cursor, ..pre })
            &&& post.cursor.col() == pre.buf@[pre.cursor.row()].len()
            &&& post.cursor.row() == pre.cursor.row()
        },
        CommandKind::ToNormal => {
            &&& post == (EditorState {
                mode: EditorMode::Normal,
                cmd_buf: post.cmd_buf,
                ..pre
            })
            &&& post.cmd_buf@ == Seq::<char>::empty()
        },
        CommandKind::ToCommand => post == (EditorState { mode: EditorMode::Command, ..pre }),
        CommandKind::ToInsert => post == (EditorState { mode: EditorMode::Insert, ..pre }),
        CommandKind::ToVisual => post == (EditorState { mode: EditorMode::Visual, ..pre }),
    }
}

/// Runs one command on the state.
pub fn apply(kind: CommandKind, state: &mut EditorState, visible_rows: usize)
    requires
        old(state).wf(),
        visible_rows >= 1,
    ensures
        spec_applied(kind, *old(state), *final(state), visible_rows as int),
        final(state).wf(),
{
    match kind {
        CommandKind::Quit => state.quit(),
        CommandKind::Write => state.write(),
        CommandKind::WriteQuit => {
            if state.path.is_some() {
                state.write();
                state.quit_after_write = true;
            } else {
                state.quit();
            }
        },
        CommandKind::Left => state.cursor.cmd_left(&state.buf, &mut state.offset, visible_rows),
        CommandKind::Right => state.cursor.cmd_right(&state.buf, &mut state.offset, visible_rows),
        CommandKind::Up => state.cursor.cmd_up(&state.buf, &mut state.offset, visible_rows),
        CommandKind::Down => state.cursor.cmd_down(&state.buf, &mut state.offset, visible_rows),
        CommandKind::Top => state.cursor.cmd_top(&state.buf, &mut state.offset),
        CommandKind::Bottom => state.cursor.cmd_bottom(&state.buf, &mut state.offset),
        CommandKind::LineStart => state.cursor.cmd_line_start(&state.buf),
        CommandKind::LineEnd => state.cursor.cmd_line_end(&state.buf),
        CommandKind::ToNormal => {
            state.cmd_buf = String::new();
            state.set_mode(EditorMode::Normal);
        },
        CommandKind::ToCommand => state.set_mode(EditorMode::Command),
        CommandKind::ToInsert => state.set_mode(EditorMode::Insert),
        CommandKind::ToVisual => state.set_mode(EditorMode::Visual),
    }
}

/// The command bound to `name`, the entry registered last winning.
pub open spec fn spec_lookup_cmd(
    table: Seq<(Seq<char>, CommandKind)>,
    name: Seq<char>,
) -> Option<CommandKind>
    decreases table.len(),
{
    if table.len() == 0 {
        None
    } else if table.last().0 == name {
        Some(table.last().1)
    } else {
        spec_lookup_cmd(table.drop_last(), name)
    }
}

/// Running `name` through the table `table`: `post` is `pre` changed by
/// the named command, or `pre` itself when the name is unknown.
pub open spec fn spec_ran(
    table: Seq<(Seq<char>, CommandKind)>,
    name: Seq<char>,
    pre: EditorState,
    post: EditorState,
    vr: int,
) -> bool {
    match spec_lookup_cmd(table, name) {
        Some(kind) => spec_applied(kind, pre, post, vr),
        None => post == pre,
    }
}

/// The name-to-command table.
pub struct EditorCommand {
    cmds: Vec<(String, CommandKind)>,
}

impl EditorCommand {
    /// The registered commands, in registration order.
    pub closed spec fn commands(&self) -> Seq<(Seq<char>, CommandKind)> {
        Seq::new(self.cmds@.len(), |i: int| (self.cmds@[i].0@, self.cmds@[i].1))
    }

    /// A registry holding the default commands.
    pub fn new() -> (r: Self)
        ensures
            r.commands() == default_commands(),
    {
        Self::register_default_commands()
    }

    /// Adds one command; it wins over any earlier command of the same
    /// name.
    pub fn register(&mut self, cmd: &str, kind: CommandKind)
        ensures
            final(self).commands() == old(self).commands().push((cmd@, kind)),
    {
        let name = cmd.to_owned();
        self.cmds.push((name, kind));
        proof {
            assert(final(self).commands() =~= old(self).commands().push((cmd@, kind)));
        }
    }

    /// The registry with the default set: quitting, writing, cursor
    /// movement, and the mode transitions.
    pub fn register_default_commands() -> (r: Self)
        ensures
            r.commands() == default_commands(),
    {
        let mut cmds = EditorCommand { cmds: Vec::new() };
        proof {
            assert(cmds.commands() =~= Seq::<(Seq<char>, CommandKind)>::empty());
        }

        cmds.register("q", CommandKind::Quit);
        cmds.register("w", CommandKind::Write);
        cmds.register("wq", CommandKind::WriteQuit);
        cmds.register("x", CommandKind::WriteQuit);

        crate::cursor::EditorCursor::register_cmds(&mut cmds);
        crate::mode::EditorMode::register_cmds(&mut cmds);

        proof {
            assert(cmds.commands() =~~= default_commands());
        }
        cmds
    }

    /// Looks `cmd` up and runs it on the state; an unknown name leaves
    /// the state untouched.
    pub fn run(&self, cmd: &str, state: &mut EditorState, visible_rows: usize)
        requires
            old(state).wf(),
            visible_rows >= 1,
        ensures
            match spec_lookup_cmd(self.commands(), cmd@) {
                Some(kind) => spec_applied(kind, *old(state), *final(state), visible_rows as int),
                None => *final(state) == *old(state),
            },
            final(state).wf(),
    {
        let name = cmd.to_owned();
        let mut i: usize = self.cmds.len();
        proof {
            assert(self.commands().take(self.commands().len() as int) =~= self.commands());
        }
        while i > 0
            invariant
                i <= self.cmds@.len(),
                name@ == cmd@,
                old(state) == state,
                old(state).wf(),
                visible_rows >= 1,
                spec_lookup_cmd(self.commands(), cmd@) == spec_lookup_cmd(
                    self.commands().take(i as int),
                    cmd@,
                ),
            decreases i,
        {
            i = i - 1;
            proof {
                assert(self.commands().take(i as int + 1).last() == self.commands()[i as int]);
                assert(self.commands().take(i as int + 1).drop_last() =~= self.commands().take(
                    i as int,
                ));
            }
            if self.cmds[i].0 == name {
                let kind = self.cmds[i].1;
                apply(kind, state, visible_rows);
                return ;
            }
        }
        proof {
            assert(self.commands().take(0) =~= Seq::<(Seq<char>, CommandKind)>::empty());
        }
    }
}

/// The contents of the default command table, in registration order.
pub open spec fn default_commands() -> Seq<(Seq<char>, CommandKind)> {
    seq![
        ("q"@, CommandKind::Quit),
        ("w"@, CommandKind::Write),
        ("wq"@, CommandKind::WriteQuit),
        ("x"@, CommandKind::WriteQuit),
        ("left"@, CommandKind::Left),
        ("right"@, CommandKind::Right),
        ("up"@, CommandKind::Up),
        ("down"@, CommandKind::Down),
        ("top"@, CommandKind::Top),
        ("bottom"@, CommandKind::Bottom),
        ("line_start"@, CommandKind::LineStart),
        ("line_end"@, CommandKind::LineEnd),
        ("normal"@, CommandKind::ToNormal),
        ("command"@, CommandKind::ToCommand),
        ("insert_before"@, CommandKind::ToInsert),
        ("insert_after"@, CommandKind::ToInsert),
        ("insert_line_start"@, CommandKind::ToInsert),
        ("insert_line_end"@, CommandKind::ToInsert),
        ("insert_below"@, CommandKind::ToInsert),
        ("insert_above"@, CommandKind::ToInsert),
        ("visual"@, CommandKind::ToVisual),
    ]
}

} // verus!
