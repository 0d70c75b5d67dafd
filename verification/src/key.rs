//! The key-binding table and the freshness filter of the timed
//! key-sequence resolver. A binding maps a mode together with an
//! ordered key sequence to a command name; pending keys age out of the
//! resolver after a fixed expiry window.

use vstd::prelude::*;

use crate::mode::EditorMode;
use crate::types::Key;

verus! {

/// How long a pending key stays fresh, in milliseconds.
pub const KEY_EXPIRY_MS: u64 = 300;

/// A pending key stamped `ts` is fresh relative to the newest stamp
/// `now` when it is less than the expiry window older. A stamp ahead of
/// `now` (a clock that jumped) counts as fresh.
pub open spec fn spec_fresh(ts: u64, now: u64) -> bool {
    ts >= now || now - ts < KEY_EXPIRY_MS
}

/// The pending keys that survive a freshness check at `now`, in order.
pub open spec fn spec_filter_fresh(pending: Seq<(u64, Key)>, now: u64) -> Seq<(u64, Key)> {
    pending.filter(|e: (u64, Key)| spec_fresh(e.0, now))
}

/// Keeps exactly the pending keys that are still fresh at `now`.
pub fn filter_fresh(pending: &Vec<(u64, Key)>, now: u64) -> (r: Vec<(u64, Key)>)
    ensures
        r@ == spec_filter_fresh(pending@, now),
{
    let mut r: Vec<(u64, Key)> = Vec::new();
    let mut i: usize = 0;
    proof {
        reveal(Seq::filter);
        assert(pending@.take(0) =~= Seq::<(u64, Key)>::empty());
    }
    while i < pending.len()
        invariant
            i <= pending@.len(),
            r@ == pending@.take(i as int).filter(|e: (u64, Key)| spec_fresh(e.0, now)),
        decreases pending@.len() - i,
    {
        let e = pending[i];
        let fresh = e.0 >= now || now - e.0 < KEY_EXPIRY_MS;
        if fresh {
            r.push(e);
        }
        i = i + 1;
        proof {
            reveal(Seq::filter);
            assert(pending@.take(i as int).drop_last() =~= pending@.take(i as int - 1));
            assert(pending@.take(i as int).last() == e);
        }
    }
    proof {
        assert(pending@.take(pending@.len() as int) =~= pending@);
    }
    r
}

/// The keys of a timestamped sequence, in order, without the stamps.
pub open spec fn spec_keys_only(p: Seq<(u64, Key)>) -> Seq<Key> {
    p.map_values(|e: (u64, Key)| e.1)
}

/// The keys of a timestamped sequence, in order, without their stamps.
pub fn keys_of(stamped: &Vec<(u64, Key)>) -> (r: Vec<Key>)
    ensures
        r@ == spec_keys_only(stamped@),
{
    let mut r: Vec<Key> = Vec::new();
    let mut i: usize = 0;
    while i < stamped.len()
        invariant
            i <= stamped@.len(),
            r@ == spec_keys_only(stamped@.take(i as int)),
        decreases stamped@.len() - i,
    {
        r.push(stamped[i].1);
        i = i + 1;
        proof {
            assert(r@ =~= spec_keys_only(stamped@.take(i as int)));
        }
    }
    proof {
        assert(stamped@.take(stamped@.len() as int) =~= stamped@);
    }
    r
}

/// Whether two key sequences are the same keys in the same order.
pub fn keys_eq(a: &Vec<Key>, b: &Vec<Key>) -> (r: bool)
    ensures
        r == (a@ == b@),
{
    if a.len() != b.len() {
        proof {
            assert(a@ != b@);
        }
        return false;
    }
    let mut i: usize = 0;
    while i < a.len()
        invariant
            i <= a@.len(),
            a@.len() == b@.len(),
            forall|k: int| 0 <= k < i as int ==> a@[k] == b@[k],
        decreases a@.len() - i,
    {
        if a[i] != b[i] {
            proof {
                assert(a@[i as int] != b@[i as int]);
            }
            return false;
        }
        i = i + 1;
    }
    proof {
        assert(a@ =~= b@);
    }
    true
}

/// The name bound to `(mode, ks)`, the binding registered last winning,
/// or `None` when no binding matches exactly.
pub open spec fn spec_lookup(
    table: Seq<(EditorMode, Seq<Key>, Seq<char>)>,
    mode: EditorMode,
    ks: Seq<Key>,
) -> Option<Seq<char>>
    decreases table.len(),
{
    if table.len() == 0 {
        None
    } else if table.last().0 == mode && table.last().1 == ks {
        Some(table.last().2)
    } else {
        spec_lookup(table.drop_last(), mode, ks)
    }
}

/// The key-binding table: an ordered list of (mode, key sequence,
/// command name) entries, looked up by exact match.
pub struct EditorKeys {
    keys: Vec<(EditorMode, Vec<Key>, String)>,
}

impl EditorKeys {
    /// The registered bindings, in registration order.
    pub closed spec fn bindings(&self) -> Seq<(EditorMode, Seq<Key>, Seq<char>)> {
        Seq::new(self.keys@.len(), |i: int| (self.keys@[i].0, self.keys@[i].1@, self.keys@[i].2@))
    }

    /// A table with the default bindings.
    pub fn new() -> (r: Self)
        ensures
            r.bindings() == default_bindings(),
    {
        Self::register_default_keys()
    }

    /// Adds one binding; it wins over any earlier binding of the same
    /// mode and key sequence.
    pub fn register(&mut self, mode: EditorMode, key: Vec<Key>, cmd: &str)
        ensures
            final(self).bindings() == old(self).bindings().push((mode, key@, cmd@)),
    {
        let name = cmd.to_owned();
        self.keys.push((mode, key, name));
        proof {
            assert(final(self).bindings() =~= old(self).bindings().push((mode, key@, cmd@)));
        }
    }

    /// Adds a Normal-mode binding.
    pub fn n_register(&mut self, key: Vec<Key>, cmd: &str)
        ensures
            final(self).bindings() == old(self).bindings().push((EditorMode::Normal, key@, cmd@)),
    {
        self.register(EditorMode::Normal, key, cmd);
    }

    /// Adds a Visual-mode binding.
    pub fn v_register(&mut self, key: Vec<Key>, cmd: &str)
        ensures
            final(self).bindings() == old(self).bindings().push((EditorMode::Visual, key@, cmd@)),
    {
        self.register(EditorMode::Visual, key, cmd);
    }

    /// Adds the same binding in Normal and Visual mode.
    pub fn nv_register(&mut self, key: Vec<Key>, cmd: &str)
        ensures
            final(self).bindings() == old(self).bindings().push(
                (EditorMode::Normal, key@, cmd@),
            ).push((EditorMode::Visual, key@, cmd@)),
    {
        let copy = key.clone();
        proof {
            assert(copy@ =~= key@);
        }
        self.n_register(copy, cmd);
        self.v_register(key, cmd);
    }

    /// The command name bound to `(mode, key)`, if any.
    pub fn get(&self, mode: EditorMode, key: &Vec<Key>) -> (r: Option<String>)
        ensures
            match r {
                Some(name) => spec_lookup(self.bindings(), mode, key@) == Some(name@),
                None => spec_lookup(self.bindings(), mode, key@) is None,
            },
    {
        let mut i: usize = self.keys.len();
        proof {
            assert(self.bindings().take(self.bindings().len() as int) =~= self.bindings());
        }
        while i > 0
            invariant
                i <= self.keys@.len(),
                spec_lookup(self.bindings(), mode, key@) == spec_lookup(
                    self.bindings().take(i as int),
                    mode,
                    key@,
                ),
        decreases i,
        {
            i = i - 1;
            let entry_mode = self.keys[i].0;
            let same_keys = keys_eq(&self.keys[i].1, key);
            proof {
                assert(self.bindings().take(i as int + 1).last() == self.bindings()[i as int]);
                assert(self.bindings().take(i as int + 1).drop_last() =~= self.bindings().take(
                    i as int,
                ));
            }
            if entry_mode == mode && same_keys {
                let name = self.keys[i].2.clone();
                return Some(name);
            }
        }
        proof {
            assert(self.bindings().take(0) =~= Seq::<(EditorMode, Seq<Key>, Seq<char>)>::empty());
        }
        None
    }

    /// The default binding table: mode changes, cursor movement, edit
    /// and window commands.
    #[verifier::rlimit(80)]
    #[verifier::spinoff_prover]
    pub fn register_default_keys() -> (r: Self)
        ensures
            r.bindings() == default_bindings(),
    {
        let mut keys = EditorKeys { keys: Vec::new() };
        proof {
            assert(keys.bindings() =~= Seq::<(EditorMode, Seq<Key>, Seq<char>)>::empty());
        }

        keys.n_register(vec![Key::Char(':')], "command");

        keys.register(EditorMode::Insert, vec![Key::Ctrl('c')], "normal");
        keys.register(EditorMode::Insert, vec![Key::Esc], "normal");
        keys.register(EditorMode::Visual, vec![Key::Ctrl('c')], "normal");
        keys.register(EditorMode::Visual, vec![Key::Esc], "normal");
        keys.register(EditorMode::Command, vec![Key::Ctrl('c')], "normal");
        keys.register(EditorMode::Command, vec![Key::Esc], "normal");

        keys.nv_register(vec![Key::Char('h')], "left");
        keys.nv_register(vec![Key::Char('j')], "down");
        keys.nv_register(vec![Key::Char('k')], "up");
        keys.nv_register(vec![Key::Char('l')], "right");
        keys.nv_register(vec![Key::Char('g'), Key::Char('g')], "top");
        keys.nv_register(vec![Key::Char('G')], "bottom");
        keys.nv_register(vec![Key::Char('b')], "back_word_left");
        keys.nv_register(vec![Key::Char('g'), Key::Char('e')], "back_word_right");
        keys.nv_register(vec![Key::Char('w')], "next_word_left");
        keys.nv_register(vec![Key::Char('e')], "next_word_right");
        keys.nv_register(vec![Key::Char('0')], "line_start");
        keys.nv_register(vec![Key::Char('^')], "first_char");
        keys.nv_register(vec![Key::Char('$')], "line_end");
        keys.nv_register(vec![Key::Char('H')], "window_top");
        keys.nv_register(vec![Key::Char('M')], "window_middle");
        keys.nv_register(vec![Key::Char('L')], "window_bottom");
        keys.nv_register(vec![Key::Char('%')], "match_paren");

        keys.n_register(vec![Key::Char('i')], "insert_before");
        keys.n_register(vec![Key::Char('I')], "insert_line_start");
        keys.n_register(vec![Key::Char('a')], "insert_after");
        keys.n_register(vec![Key::Char('A')], "insert_line_end");
        keys.n_register(vec![Key::Char('o')], "insert_below");
        keys.n_register(vec![Key::Char('O')], "insert_above");

        keys.n_register(vec![Key::Char('v')], "visual");
        keys.n_register(vec![Key::Char('V')], "visual_line");
        keys.n_register(vec![Key::Ctrl('v')], "visual_block");

        keys.n_register(vec![Key::Char('d'), Key::Char('d')], "delete_line");
        keys.n_register(vec![Key::Char('y'), Key::Char('y')], "copy_line");
        keys.n_register(vec![Key::Char('p')], "paste_after");
        keys.n_register(vec![Key::Char('P')], "paste_before");
        keys.v_register(vec![Key::Char('y')], "copy");
        keys.v_register(vec![Key::Char('d')], "delete");

        keys.n_register(vec![Key::Char('u')], "undo");
        keys.n_register(vec![Key::Ctrl('r')], "redo");

        keys.n_register(vec![Key::Char('>'), Key::Char('>')], "indent");
        keys.n_register(vec![Key::Char('<'), Key::Char('<')], "de-indent");
        keys.n_register(vec![Key::Char('>'), Key::Char('%')], "block_indent");
        keys.n_register(vec![Key::Char('<'), Key::Char('%')], "block_de-indent");
        keys.v_register(vec![Key::Char('>')], "indent");
        keys.v_register(vec![Key::Char('<')], "indent");

        proof {
            assert(keys.bindings() =~~= default_bindings());
        }
        keys
    }
}

/// The contents of the default binding table, in registration order.
pub open spec fn default_bindings() -> Seq<(EditorMode, Seq<Key>, Seq<char>)> {
    seq![
        (EditorMode::Normal, seq![Key::Char(':')], "command"@),
        (EditorMode::Insert, seq![Key::Ctrl('c')], "normal"@),
        (EditorMode::Insert, seq![Key::Esc], "normal"@),
        (EditorMode::Visual, seq![Key::Ctrl('c')], "normal"@),
        (EditorMode::Visual, seq![Key::Esc], "normal"@),
        (EditorMode::Command, seq![Key::Ctrl('c')], "normal"@),
        (EditorMode::Command, seq![Key::Esc], "normal"@),
        (EditorMode::Normal, seq![Key::Char('h')], "left"@),
        (EditorMode::Visual, seq![Key::Char('h')], "left"@),
        (EditorMode::Normal, seq![Key::Char('j')], "down"@),
        (EditorMode::Visual, seq![Key::Char('j')], "down"@),
        (EditorMode::Normal, seq![Key::Char('k')], "up"@),
        (EditorMode::Visual, seq![Key::Char('k')], "up"@),
        (EditorMode::Normal, seq![Key::Char('l')], "right"@),
        (EditorMode::Visual, seq![Key::Char('l')], "right"@),
        (EditorMode::Normal, seq![Key::Char('g'), Key::Char('g')], "top"@),
        (EditorMode::Visual, seq![Key::Char('g'), Key::Char('g')], "top"@),
        (EditorMode::Normal, seq![Key::Char('G')], "bottom"@),
        (EditorMode::Visual, seq![Key::Char('G')], "bottom"@),
        (EditorMode::Normal, seq![Key::Char('b')], "back_word_left"@),
        (EditorMode::Visual, seq![Key::Char('b')], "back_word_left"@),
        (EditorMode::Normal, seq![Key::Char('g'), Key::Char('e')], "back_word_right"@),
        (EditorMode::Visual, seq![Key::Char('g'), Key::Char('e')], "back_word_right"@),
        (EditorMode::Normal, seq![Key::Char('w')], "next_word_left"@),
        (EditorMode::Visual, seq![Key::Char('w')], "next_word_left"@),
        (EditorMode::Normal, seq![Key::Char('e')], "next_word_right"@),
        (EditorMode::Visual, seq![Key::Char('e')], "next_word_right"@),
        (EditorMode::Normal, seq![Key::Char('0')], "line_start"@),
        (EditorMode::Visual, seq![Key::Char('0')], "line_start"@),
        (EditorMode::Normal, seq![Key::Char('^')], "first_char"@),
        (EditorMode::Visual, seq![Key::Char('^')], "first_char"@),
        (EditorMode::Normal, seq![Key::Char('$')], "line_end"@),
        (EditorMode::Visual, seq![Key::Char('$')], "line_end"@),
        (EditorMode::Normal, seq![Key::Char('H')], "window_top"@),
        (EditorMode::Visual, seq![Key::Char('H')], "window_top"@),
        (EditorMode::Normal, seq![Key::Char('M')], "window_middle"@),
        (EditorMode::Visual, seq![Key::Char('M')], "window_middle"@),
        (EditorMode::Normal, seq![Key::Char('L')], "window_bottom"@),
        (EditorMode::Visual, seq![Key::Char('L')], "window_bottom"@),
        (EditorMode::Normal, seq![Key::Char('%')], "match_paren"@),
        (EditorMode::Visual, seq![Key::Char('%')], "match_paren"@),
        (EditorMode::Normal, seq![Key::Char('i')], "insert_before"@),
        (EditorMode::Normal, seq![Key::Char('I')], "insert_line_start"@),
        (EditorMode::Normal, seq![Key::Char('a')], "insert_after"@),
        (EditorMode::Normal, seq![Key::Char('A')], "insert_line_end"@),
        (EditorMode::Normal, seq![Key::Char('o')], "insert_below"@),
        (EditorMode::Normal, seq![Key::Char('O')], "insert_above"@),
        (EditorMode::Normal, seq![Key::Char('v')], "visual"@),
        (EditorMode::Normal, seq![Key::Char('V')], "visual_line"@),
        (EditorMode::Normal, seq![Key::Ctrl('v')], "visual_block"@),
        (EditorMode::Normal, seq![Key::Char('d'), Key::Char('d')], "delete_line"@),
        (EditorMode::Normal, seq![Key::Char('y'), Key::Char('y')], "copy_line"@),
        (EditorMode::Normal, seq![Key::Char('p')], "paste_after"@),
        (EditorMode::Normal, seq![Key::Char('P')], "paste_before"@),
        (EditorMode::Visual, seq![Key::Char('y')], "copy"@),
        (EditorMode::Visual, seq![Key::Char('d')], "delete"@),
        (EditorMode::Normal, seq![Key::Char('u')], "undo"@),
        (EditorMode::Normal, seq![Key::Ctrl('r')], "redo"@),
        (EditorMode::Normal, seq![Key::Char('>'), Key::Char('>')], "indent"@),
        (EditorMode::Normal, seq![Key::Char('<'), Key::Char('<')], "de-indent"@),
        (EditorMode::Normal, seq![Key::Char('>'), Key::Char('%')], "block_indent"@),
        (EditorMode::Normal, seq![Key::Char('<'), Key::Char('%')], "block_de-indent"@),
        (EditorMode::Visual, seq![Key::Char('>')], "indent"@),
        (EditorMode::Visual, seq![Key::Char('<')], "indent"@),
    ]
}

} // verus!
