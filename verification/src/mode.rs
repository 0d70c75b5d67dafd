//! The editing modes and their display names. Mode transitions are
//! triggered only by named commands (see the command registry), never by
//! ad-hoc key checks inside the resolver.

use vstd::prelude::*;

use crate::cmd::CommandKind;
use crate::cmd::EditorCommand;

verus! {

/// The interpretation context for a key event. Exactly one mode is
/// active at a time; `Normal` is the initial mode.
#[derive(Clone, Copy, Debug, PartialEq, Eq, Structural)]
pub enum EditorMode {
    Normal,
    Command,
    Insert,
    Visual,
}

impl Default for EditorMode {
    fn default() -> (r: Self)
        ensures
            r == EditorMode::Normal,
    {
        EditorMode::Normal
    }
}

impl EditorMode {
    /// The mode's display name, as shown in the info bar.
    pub fn name(&self) -> (r: String)
        ensures
            *self == EditorMode::Normal ==> r@ == "Normal"@,
            *self == EditorMode::Command ==> r@ == "Command"@,
            *self == EditorMode::Insert ==> r@ == "Insert"@,
            *self == EditorMode::Visual ==> r@ == "Visual"@,
    {
        match self {
            EditorMode::Normal => "Normal".to_owned(),
            EditorMode::Command => "Command".to_owned(),
            EditorMode::Insert => "Insert".to_owned(),
            EditorMode::Visual => "Visual".to_owned(),
        }
    }

    /// Registers the mode-transition commands in the registry: back to
    /// Normal (clearing the command line), and into Command, Insert and
    /// Visual mode.
    pub fn register_cmds(cmds: &mut EditorCommand)
        ensures
            final(cmds).commands() == old(cmds).commands().push(
                ("normal"@, CommandKind::ToNormal),
            ).push(("command"@, CommandKind::ToCommand)).push(
                ("insert_before"@, CommandKind::ToInsert),
            ).push(("insert_after"@, CommandKind::ToInsert)).push(
                ("insert_line_start"@, CommandKind::ToInsert),
            ).push(("insert_line_end"@, CommandKind::ToInsert)).push(
                ("insert_below"@, CommandKind::ToInsert),
            ).push(("insert_above"@, CommandKind::ToInsert)).push(
                ("visual"@, CommandKind::ToVisual),
            ),
    {
        cmds.register("normal", CommandKind::ToNormal);
        cmds.register("command", CommandKind::ToCommand);
        cmds.register("insert_before", CommandKind::ToInsert);
        cmds.register("insert_after", CommandKind::ToInsert);
        cmds.register("insert_line_start", CommandKind::ToInsert);
        cmds.register("insert_line_end", CommandKind::ToInsert);
        cmds.register("insert_below", CommandKind::ToInsert);
        cmds.register("insert_above", CommandKind::ToInsert);
        cmds.register("visual", CommandKind::ToVisual);
    }
}

} // verus!
