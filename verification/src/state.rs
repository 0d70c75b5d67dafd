//! The aggregate editor state: the buffer, cursor, mode, scroll offset,
//! pending keys, command-line text, file path and quit flag. It is the
//! only unit of shared mutable state; commands and the resolver receive
//! it by exclusive mutable access for the duration of one event.
//!
//! Writing the buffer to disk is not done here: a `write` request only
//! records the serialized text, and the program around the core
//! performs the write and reports back through `write_finished`, so
//! that a failed write neither quits nor clears the command line.

use vstd::prelude::*;

use crate::buf::CodeBuffer;
use crate::cursor::EditorCursor;
use crate::key::spec_filter_fresh;
use crate::key::spec_keys_only;
use crate::key::keys_of;
use crate::key::filter_fresh;
use crate::mode::EditorMode;
use crate::text::join_text;
use crate::text::split_text;
use crate::types::Key;
use crate::types::Vec2;

verus! {

/// The shared mutable editor state.
pub struct EditorState {
    pub buf: CodeBuffer,
    pub mode: EditorMode,
    pub cursor: EditorCursor,
    pub offset: Vec2<usize>,
    pub key_buf: Vec<(u64, Key)>,
    pub visual_start: Vec2<usize>,
    pub cmd_buf: String,
    pub path: Option<String>,
    pub is_quit: bool,
    pub pending_write: Option<String>,
    pub quit_after_write: bool,
}

impl EditorState {
    /// The state invariant: the buffer holds at least one line, the
    /// cursor row is on the buffer, and the viewport does not start
    /// below the cursor row.
    pub open spec fn wf(&self) -> bool {
        &&& self.buf.wf()
        &&& self.cursor.on_buffer(&self.buf)
        &&& self.offset.y <= self.cursor.row()
    }

    /// A state freshly made over the text `text` and path `path`.
    pub open spec fn is_initial(self, text: Seq<char>, path: Option<String>) -> bool {
        &&& self.buf@ == split_text(text)
        &&& self.mode == EditorMode::Normal
        &&& self.cursor.col() == 0
        &&& self.cursor.row() == 0
        &&& self.offset.x == 0
        &&& self.offset.y == 0
        &&& self.key_buf@ == Seq::<(u64, Key)>::empty()
        &&& self.visual_start.x == 0
        &&& self.visual_start.y == 0
        &&& self.cmd_buf@ == Seq::<char>::empty()
        &&& self.path == path
        &&& !self.is_quit
        &&& self.pending_write is None
        &&& !self.quit_after_write
    }

    /// A fresh state over the given text, in Normal mode, with the
    /// cursor and viewport at the origin and nothing pending.
    pub fn new(buf: String, path: Option<String>) -> (r: Self)
        ensures
            r.is_initial(buf@, path),
            r.wf(),
    {
        let r = EditorState {
            buf: CodeBuffer::new(buf),
            mode: EditorMode::Normal,
            cursor: EditorCursor::default(),
            offset: Vec2::new(0, 0),
            key_buf: Vec::new(),
            visual_start: Vec2::new(0, 0),
            cmd_buf: String::new(),
            path,
            is_quit: false,
            pending_write: None,
            quit_after_write: false,
        };
        proof {
            assert(r.key_buf@ =~= Seq::<(u64, Key)>::empty());
        }
        r
    }

    pub fn set_mode(&mut self, mode: EditorMode)
        ensures
            *final(self) == (EditorState { mode, ..*old(self) }),
    {
        self.mode = mode;
    }

    pub fn get_mode(&self) -> (r: EditorMode)
        ensures
            r == self.mode,
    {
        self.mode
    }

    pub fn set_path(&mut self, path: String)
        ensures
            *final(self) == (EditorState { path: Some(path), ..*old(self) }),
    {
        self.path = Some(path);
    }

    pub fn get_path(&self) -> (r: Option<String>)
        ensures
            r == self.path,
    {
        match &self.path {
            Some(p) => Some(p.clone()),
            None => None,
        }
    }

    /// Appends one timestamped key to the pending keys.
    pub fn push_key(&mut self, ts: u64, key: Key)
        ensures
            *final(self) == (EditorState { key_buf: final(self).key_buf, ..*old(self) }),
            final(self).key_buf@ == old(self).key_buf@.push((ts, key)),
    {
        self.key_buf.push((ts, key));
    }

    /// Drops all pending keys.
    pub fn clear_keys(&mut self)
        ensures
            *final(self) == (EditorState { key_buf: final(self).key_buf, ..*old(self) }),
            final(self).key_buf@ =~= Seq::<(u64, Key)>::empty(),
    {
        self.key_buf.clear();
    }

    /// The pending keys that are still fresh at `now`, oldest first,
    /// without their timestamps.
    pub fn get_keys(&self, now: u64) -> (r: Vec<Key>)
        ensures
            r@ == spec_keys_only(spec_filter_fresh(self.key_buf@, now)),
    {
        let fresh = filter_fresh(&self.key_buf, now);
        keys_of(&fresh)
    }

    /// Replaces the pending keys with the given timestamped sequence.
    pub fn set_keys(&mut self, keys: Vec<(u64, Key)>)
        ensures
            *final(self) == (EditorState { key_buf: final(self).key_buf, ..*old(self) }),
            final(self).key_buf@ == keys@,
    {
        self.key_buf = keys;
    }

    /// Requests that the buffer be written out: records the serialized
    /// text when a path is set, and does nothing otherwise.
    pub fn write(&mut self)
        requires
            old(self).buf.wf(),
        ensures
            old(self).path is Some ==> {
                &&& *final(self) == (EditorState {
                    pending_write: final(self).pending_write,
                    ..*old(self)
                })
                &&& match final(self).pending_write {
                    Some(t) => t@ == join_text(old(self).buf@),
                    None => false,
                }
            },
            old(self).path is None ==> *final(self) == *old(self),
    {
        if self.path.is_some() {
            let text = self.buf.serialize();
            self.pending_write = Some(text);
        }
    }

    /// Raises the quit flag.
    pub fn quit(&mut self)
        ensures
            *final(self) == (EditorState { is_quit: true, ..*old(self) }),
    {
        self.is_quit = true;
    }

    /// The outcome of the requested write, reported by the caller that
    /// performed it. On success the command line is cleared, the editor
    /// returns to Normal mode, and a pending quit takes effect; on
    /// failure mode and command line stay untouched so the write can be
    /// retried, and the editor does not quit.
    pub fn write_finished(&mut self, ok: bool)
        ensures
            ok ==> *final(self) == (EditorState {
                pending_write: None,
                quit_after_write: false,
                cmd_buf: final(self).cmd_buf,
                mode: EditorMode::Normal,
                is_quit: old(self).is_quit || old(self).quit_after_write,
                ..*old(self)
            }) && final(self).cmd_buf@ == Seq::<char>::empty(),
            !ok ==> *final(self) == (EditorState {
                pending_write: None,
                quit_after_write: false,
                ..*old(self)
            }),
    {
        self.pending_write = None;
        if ok {
            if self.quit_after_write {
                self.is_quit = true;
            }
            self.cmd_buf = String::new();
            self.mode = EditorMode::Normal;
        }
        self.quit_after_write = false;
    }
}

} // verus!
