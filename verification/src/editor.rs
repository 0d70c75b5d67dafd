//! The editor: the command registry, the key-binding table and the
//! aggregate state, with the event dispatch that turns one key at a
//! time into buffer, cursor, viewport and mode changes.
//!
//! In Insert and Command mode most keys are literal text input and
//! bypass the resolver; every other key goes through the timed
//! key-sequence resolver, which either fires a registered command or
//! extends the pending sequence.

use vstd::prelude::*;

use crate::buf::spec_delete_char;
use crate::buf::spec_insert_char;
use crate::buf::spec_join_lines;
use crate::buf::spec_split_line;
use crate::cmd::default_commands;
use crate::cmd::spec_ran;
use crate::cmd::CommandKind;
use crate::cmd::EditorCommand;
use crate::cursor::spec_scroll_y;
use crate::key::default_bindings;
use crate::key::filter_fresh;
use crate::key::keys_of;
use crate::key::spec_filter_fresh;
use crate::key::spec_keys_only;
use crate::key::spec_lookup;
use crate::key::EditorKeys;
use crate::mode::EditorMode;
use crate::state::EditorState;
use crate::types::Key;

verus! {

/// The column where Insert-mode edits anchor: the stored column clamped
/// to the current line length.
pub open spec fn spec_display_col(s: EditorState) -> int {
    let len = s.buf@[s.cursor.row()].len() as int;
    if s.cursor.col() > len {
        len
    } else {
        s.cursor.col()
    }
}

/// Whether the active mode treats this key as literal text input, so
/// that it bypasses the key-sequence resolver.
pub open spec fn is_text_key(mode: EditorMode, key: Key) -> bool {
    match mode {
        EditorMode::Insert => (key matches Key::Char(_)) || key is Enter || key is Tab || key
            is Backspace || key is Delete,
        EditorMode::Command => (key matches Key::Char(_)) || key is Enter || key is Backspace,
        _ => false,
    }
}

/// What one literal key does in Insert mode, as a relation between the
/// state before and after.
pub open spec fn spec_insert_key(pre: EditorState, post: EditorState, key: Key, vr: int) -> bool {
    let cy = pre.cursor.row();
    let len = pre.buf@[cy].len() as int;
    let cx = spec_display_col(pre);
    let off = pre.offset.y as int;
    match key {
        Key::Enter => {
            &&& post == (EditorState {
                buf: post.buf,
                cursor: post.cursor,
                offset: post.offset,
                ..pre
            })
            &&& post.buf@ == if cx < len {
                spec_split_line(pre.buf@, cx, cy)
            } else {
                pre.buf@.push(Seq::<char>::empty())
            }
            &&& post.cursor.row() == cy + 1
            &&& post.cursor.col() == 0
            &&& post.offset.y == spec_scroll_y(off, cy + 1, 1, vr)
            &&& post.offset.x == pre.offset.x
        },
        Key::Tab => {
            &&& post == (EditorState {
                buf: post.buf,
                cursor: post.cursor,
                offset: post.offset,
                ..pre
            })
            &&& post.buf@ == pre.buf@.update(
                cy,
                pre.buf@[cy].take(cx) + seq![' ', ' '] + pre.buf@[cy].skip(cx),
            )
            &&& post.cursor.row() == cy
            &&& post.cursor.col() == cx + 2
            &&& post.offset.y == spec_scroll_y(off, cy, 0, vr)
            &&& post.offset.x == pre.offset.x
        },
        Key::Backspace => {
            if cx > 0 {
                &&& post == (EditorState {
                    buf: post.buf,
                    cursor: post.cursor,
                    offset: post.offset,
                    ..pre
                })
                &&& post.buf@ == spec_delete_char(pre.buf@, cx - 1, cy)
                &&& post.cursor.row() == cy
                &&& post.cursor.col() == pre.cursor.col() - 1
                &&& post.offset.y == spec_scroll_y(off, cy, 0, vr)
                &&& post.offset.x == pre.offset.x
            } else if cy > 0 {
                &&& post == (EditorState {
                    buf: post.buf,
                    cursor: post.cursor,
                    offset: post.offset,
                    ..pre
                })
                &&& post.buf@ == spec_join_lines(pre.buf@, cy - 1)
                &&& post.cursor.row() == cy - 1
                &&& post.cursor.col() == pre.buf@[cy - 1].len()
                &&& post.offset.y == spec_scroll_y(off, cy - 1, -1, vr)
                &&& post.offset.x == pre.offset.x
            } else {
                post == pre
            }
        },
        Key::Delete => {
            &&& post == (EditorState { buf: post.buf, ..pre })
            &&& post.buf@ == if cx < len {
                spec_delete_char(pre.buf@, cx, cy)
            } else {
                spec_join_lines(pre.buf@, cy)
            }
        },
        Key::Char(c) => {
            &&& post == (EditorState {
                buf: post.buf,
                cursor: post.cursor,
                offset: post.offset,
                ..pre
            })
            &&& post.buf@ == spec_insert_char(pre.buf@, c, cx, cy)
            &&& post.cursor.row() == cy
            &&& post.cursor.col() == cx + 1
            &&& post.offset.y == spec_scroll_y(off, cy, 0, vr)
            &&& post.offset.x == pre.offset.x
        },
        _ => post == pre,
    }
}

/// What one literal key does in Command mode. On Enter the command-line
/// text is looked up and run; when that command requested a write (no
/// request stood before, one stands after), the editor stays in Command
/// mode until the write's outcome is reported, otherwise it returns to
/// Normal mode with the command line cleared.
pub open spec fn spec_command_key(
    table: Seq<(Seq<char>, CommandKind)>,
    pre: EditorState,
    post: EditorState,
    key: Key,
    vr: int,
) -> bool {
    match key {
        Key::Enter => exists|mid: EditorState|
            {
                &&& #[trigger] spec_ran(table, pre.cmd_buf@, pre, mid, vr)
                &&& if pre.pending_write is None && mid.pending_write is Some {
                    post == mid
                } else {
                    spec_ran(table, "normal"@, mid, post, vr)
                }
            },
        Key::Backspace => {
            if pre.cmd_buf@.len() == 0 {
                spec_ran(table, "normal"@, pre, post, vr)
            } else {
                &&& post == (EditorState { cmd_buf: post.cmd_buf, ..pre })
                &&& post.cmd_buf@ == pre.cmd_buf@.drop_last()
            }
        },
        Key::Char(c) => {
            &&& post == (EditorState { cmd_buf: post.cmd_buf, ..pre })
            &&& post.cmd_buf@ == pre.cmd_buf@.push(c)
        },
        _ => post == pre,
    }
}

/// The pending keys after one more key arrived at `now`: the fresh
/// survivors with the new key appended.
pub open spec fn spec_pending_after(pending: Seq<(u64, Key)>, now: u64, key: Key) -> Seq<
    (u64, Key),
> {
    spec_filter_fresh(pending, now).push((now, key))
}

/// What a key handed to the resolver does: the still-fresh pending keys
/// plus the new key are looked up as a chord; an exact match clears the
/// pending keys and runs the bound command, no match keeps the filtered
/// sequence as the new pending state.
pub open spec fn spec_resolved(
    ktable: Seq<(EditorMode, Seq<Key>, Seq<char>)>,
    ctable: Seq<(Seq<char>, CommandKind)>,
    pre: EditorState,
    post: EditorState,
    key: Key,
    now: u64,
    vr: int,
) -> bool {
    if spec_lookup(ktable, pre.mode, spec_keys_only(spec_pending_after(pre.key_buf@, now, key)))
        is Some {
        exists|mid: EditorState|
            {
                &&& mid == (EditorState { key_buf: mid.key_buf, ..pre })
                &&& mid.key_buf@ == Seq::<(u64, Key)>::empty()
                &&& #[trigger] spec_ran(
                    ctable,
                    spec_lookup(
                        ktable,
                        pre.mode,
                        spec_keys_only(spec_pending_after(pre.key_buf@, now, key)),
                    )->0,
                    mid,
                    post,
                    vr,
                )
            }
    } else {
        &&& post == (EditorState { key_buf: post.key_buf, ..pre })
        &&& post.key_buf@ == spec_pending_after(pre.key_buf@, now, key)
    }
}

/// What one key event does to the whole editor state, given the key's
/// arrival time and the number of visible rows.
pub open spec fn spec_on_event(
    ktable: Seq<(EditorMode, Seq<Key>, Seq<char>)>,
    ctable: Seq<(Seq<char>, CommandKind)>,
    pre: EditorState,
    post: EditorState,
    key: Key,
    now: u64,
    vr: int,
) -> bool {
    if is_text_key(pre.mode, key) {
        if pre.mode is Insert {
            spec_insert_key(pre, post, key, vr)
        } else {
            spec_command_key(ctable, pre, post, key, vr)
        }
    } else {
        spec_resolved(ktable, ctable, pre, post, key, now, vr)
    }
}

/// Relies on `std::time::SystemTime::now` for the current wall-clock
/// time, read as milliseconds since the Unix epoch; a clock before the
/// epoch reads as 0. The body is total, and nothing is assumed of the
/// value: callers treat the clock as arbitrary.
#[verifier::external_body]
fn now_millis() -> u64 {
    match std::time::SystemTime::now().duration_since(std::time::UNIX_EPOCH) {
        Ok(d) => d.as_millis() as u64,
        Err(_) => 0,
    }
}

fn insert_enter(state: &mut EditorState, visible_rows: usize)
    requires
        old(state).wf(),
        visible_rows >= 1,
    ensures
        spec_insert_key(*old(state), *final(state), Key::Enter, visible_rows as int),
        final(state).wf(),
{
    let (cx, cy) = state.cursor.get_display(&state.buf);
    let line_len = state.buf.line_length(cy);
    if cx < line_len {
        state.buf.split_line(cx, cy);
    } else {
        state.buf.insert_line();
    }
    state.cursor.move_by(&state.buf, &mut state.offset, 0, 1, visible_rows);
    state.cursor.move_x_to(&state.buf, 0);
}

fn insert_tab(state: &mut EditorState, visible_rows: usize)
    requires
        old(state).wf(),
        visible_rows >= 1,
    ensures
        spec_insert_key(*old(state), *final(state), Key::Tab, visible_rows as int),
        final(state).wf(),
{
    let (cx, cy) = state.cursor.get_display(&state.buf);
    state.buf.insert_str("  ", cx, cy);
    proof {
        reveal_strlit("  ");
        assert("  "@ =~= seq![' ', ' ']);
    }
    state.cursor.move_by(&state.buf, &mut state.offset, 2, 0, visible_rows);
}

fn insert_backspace(state: &mut EditorState, visible_rows: usize)
    requires
        old(state).wf(),
        visible_rows >= 1,
    ensures
        spec_insert_key(*old(state), *final(state), Key::Backspace, visible_rows as int),
        final(state).wf(),
{
    let (cx, cy) = state.cursor.get_display(&state.buf);
    if cx > 0 {
        state.buf.delete(cx - 1, cy);
        state.cursor.move_by(&state.buf, &mut state.offset, -1, 0, visible_rows);
    } else if cy > 0 {
        let line_len = state.buf.line_length(cy - 1);
        state.cursor.move_by(&state.buf, &mut state.offset, 0, -1, visible_rows);
        state.cursor.move_x_to(&state.buf, line_len);
        state.buf.join_lines(cy - 1);
    }
}

fn insert_delete(state: &mut EditorState)
    requires
        old(state).wf(),
    ensures
        spec_insert_key(*old(state), *final(state), Key::Delete, 1),
        final(state).wf(),
{
    let (cx, cy) = state.cursor.get_display(&state.buf);
    let line_len = state.buf.line_length(cy);
    if cx < line_len {
        state.buf.delete(cx, cy);
    } else {
        state.buf.join_lines(cy);
    }
}

fn insert_char(state: &mut EditorState, c: char, visible_rows: usize)
    requires
        old(state).wf(),
        visible_rows >= 1,
    ensures
        spec_insert_key(*old(state), *final(state), Key::Char(c), visible_rows as int),
        final(state).wf(),
{
    let (cx, cy) = state.cursor.get_display(&state.buf);
    state.buf.insert(c, cx, cy);
    state.cursor.move_by(&state.buf, &mut state.offset, 1, 0, visible_rows);
}

fn command_enter(cmds: &EditorCommand, state: &mut EditorState, visible_rows: usize)
    requires
        old(state).wf(),
        visible_rows >= 1,
    ensures
        spec_command_key(
            cmds.commands(),
            *old(state),
            *final(state),
            Key::Enter,
            visible_rows as int,
        ),
        final(state).wf(),
{
    let name = state.cmd_buf.clone();
    let had_pending = state.pending_write.is_some();
    cmds.run(name.as_str(), state, visible_rows);
    let ghost mid = *state;
    if had_pending || state.pending_write.is_none() {
        cmds.run("normal", state, visible_rows);
    }
    proof {
        assert(spec_ran(
            cmds.commands(),
            old(state).cmd_buf@,
            *old(state),
            mid,
            visible_rows as int,
        ));
    }
}

fn command_backspace(cmds: &EditorCommand, state: &mut EditorState, visible_rows: usize)
    requires
        old(state).wf(),
        visible_rows >= 1,
    ensures
        spec_command_key(
            cmds.commands(),
            *old(state),
            *final(state),
            Key::Backspace,
            visible_rows as int,
        ),
        final(state).wf(),
{
    if state.cmd_buf.as_str().is_empty() {
        cmds.run("normal", state, visible_rows);
    }
    crate::text::pop_char(&mut state.cmd_buf);
}

fn command_char(state: &mut EditorState, c: char)
    requires
        old(state).wf(),
    ensures
        *final(state) == (EditorState { cmd_buf: final(state).cmd_buf, ..*old(state) }),
        final(state).cmd_buf@ == old(state).cmd_buf@.push(c),
        final(state).wf(),
{
    crate::text::push_char(&mut state.cmd_buf, c);
}

#[verifier::rlimit(60)]
#[verifier::spinoff_prover]
fn resolve_key(
    keys: &EditorKeys,
    cmds: &EditorCommand,
    state: &mut EditorState,
    key: Key,
    now: u64,
    visible_rows: usize,
)
    requires
        old(state).wf(),
        visible_rows >= 1,
    ensures
        spec_resolved(
            keys.bindings(),
            cmds.commands(),
            *old(state),
            *final(state),
            key,
            now,
            visible_rows as int,
        ),
        final(state).wf(),
{
    let mut stamped = filter_fresh(&state.key_buf, now);
    stamped.push((now, key));
    let ks = keys_of(&stamped);
    proof {
        assert(stamped@ == spec_pending_after(old(state).key_buf@, now, key));
    }
    let mode = state.get_mode();
    let found = keys.get(mode, &ks);
    match found {
        Some(name) => {
            state.clear_keys();
            let ghost mid = *state;
            cmds.run(name.as_str(), state, visible_rows);
            proof {
                assert(mid == (EditorState { key_buf: mid.key_buf, ..*old(state) }));
                assert(mid.key_buf@ == Seq::<(u64, Key)>::empty());
                assert(spec_ran(cmds.commands(), name@, mid, *state, visible_rows as int));
                let looked = spec_lookup(
                    keys.bindings(),
                    old(state).mode,
                    spec_keys_only(spec_pending_after(old(state).key_buf@, now, key)),
                );
                assert(looked == Some(name@));
                assert(looked->0 == name@);
                assert(spec_ran(cmds.commands(), looked->0, mid, *state, visible_rows as int));
                assert(exists|w: EditorState|
                    {
                        &&& w == (EditorState { key_buf: w.key_buf, ..*old(state) })
                        &&& w.key_buf@ == Seq::<(u64, Key)>::empty()
                        &&& #[trigger] spec_ran(
                            cmds.commands(),
                            looked->0,
                            w,
                            *state,
                            visible_rows as int,
                        )
                    });
                assert(spec_resolved(
                    keys.bindings(),
                    cmds.commands(),
                    *old(state),
                    *state,
                    key,
                    now,
                    visible_rows as int,
                ));
            }
        },
        None => {
            state.set_keys(stamped);
        },
    }
}

/// The editor: the registry of commands, the key-binding table, and the
/// aggregate state they act on.
pub struct Editor {
    pub cmds: EditorCommand,
    pub keys: EditorKeys,
    pub state: EditorState,
}

impl Default for Editor {
    /// An editor over an empty document with no associated path.
    fn default() -> (r: Self)
        ensures
            r.cmds.commands() == default_commands(),
            r.keys.bindings() == default_bindings(),
            r.state.is_initial(Seq::<char>::empty(), None),
            r.state.wf(),
    {
        Editor::new(String::new(), None)
    }
}

impl Editor {
    /// An editor over the given text, with the default commands and key
    /// bindings, in Normal mode.
    pub fn new(buf: String, path: Option<String>) -> (r: Self)
        ensures
            r.cmds.commands() == default_commands(),
            r.keys.bindings() == default_bindings(),
            r.state.is_initial(buf@, path),
            r.state.wf(),
    {
        Editor {
            cmds: EditorCommand::new(),
            keys: EditorKeys::new(),
            state: EditorState::new(buf, path),
        }
    }

    /// An editor over the given text that will write back to `path`.
    pub fn with_path(buf: String, path: String) -> (r: Self)
        ensures
            r.cmds.commands() == default_commands(),
            r.keys.bindings() == default_bindings(),
            r.state.is_initial(buf@, Some(path)),
            r.state.wf(),
    {
        Editor {
            cmds: EditorCommand::new(),
            keys: EditorKeys::new(),
            state: EditorState::new(buf, Some(path)),
        }
    }

    /// Handles one key event that arrived at `now` (milliseconds), with
    /// `visible_rows` rows of text on screen. Returns the quit flag.
    pub fn on_event_at(&mut self, key: Key, now: u64, visible_rows: usize) -> (quit: bool)
        requires
            old(self).state.wf(),
            visible_rows >= 1,
        ensures
            final(self).cmds == old(self).cmds,
            final(self).keys == old(self).keys,
            spec_on_event(
                old(self).keys.bindings(),
                old(self).cmds.commands(),
                old(self).state,
                final(self).state,
                key,
                now,
                visible_rows as int,
            ),
            final(self).state.wf(),
            quit == final(self).state.is_quit,
    {
        let mode = self.state.get_mode();
        if mode == EditorMode::Insert {
            match key {
                Key::Enter => insert_enter(&mut self.state, visible_rows),
                Key::Tab => insert_tab(&mut self.state, visible_rows),
                Key::Backspace => insert_backspace(&mut self.state, visible_rows),
                Key::Delete => insert_delete(&mut self.state),
                Key::Char(c) => insert_char(&mut self.state, c, visible_rows),
                _ => resolve_key(&self.keys, &self.cmds, &mut self.state, key, now, visible_rows),
            }
        } else if mode == EditorMode::Command {
            match key {
                Key::Enter => command_enter(&self.cmds, &mut self.state, visible_rows),
                Key::Backspace => command_backspace(&self.cmds, &mut self.state, visible_rows),
                Key::Char(c) => command_char(&mut self.state, c),
                _ => resolve_key(&self.keys, &self.cmds, &mut self.state, key, now, visible_rows),
            }
        } else {
            resolve_key(&self.keys, &self.cmds, &mut self.state, key, now, visible_rows);
        }
        self.state.is_quit
    }

    /// Handles one key event, stamping it with the current wall-clock
    /// time. The transition is that of `on_event_at` for some time
    /// value: the clock is arbitrary, and everything stated here holds
    /// whatever it returned.
    pub fn on_event(&mut self, key: Key, visible_rows: usize) -> (quit: bool)
        requires
            old(self).state.wf(),
            visible_rows >= 1,
        ensures
            final(self).cmds == old(self).cmds,
            final(self).keys == old(self).keys,
            exists|now: u64|
                spec_on_event(
                    old(self).keys.bindings(),
                    old(self).cmds.commands(),
                    old(self).state,
                    final(self).state,
                    key,
                    now,
                    visible_rows as int,
                ),
            final(self).state.wf(),
            quit == final(self).state.is_quit,
    {
        let now = now_millis();
        let quit = self.on_event_at(key, now, visible_rows);
        proof {
            assert(spec_on_event(
                old(self).keys.bindings(),
                old(self).cmds.commands(),
                old(self).state,
                final(self).state,
                key,
                now,
                visible_rows as int,
            ));
        }
        quit
    }
}

} // verus!
