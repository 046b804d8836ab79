//! The command-definition model the renderer reads: one node per command,
//! one node per argument, one node per permitted argument value.
//!
//! The nodes hold plain values only; the external model that builds a
//! command tree converts into these before a generation pass begins.

use vstd::prelude::*;

verus! {

/// One permitted literal value of an argument that takes an enumerated
/// value.
pub struct PossibleValueNode {
    /// The literal value.
    pub name: String,
    /// Help text shown beside the value, when any was declared.
    pub help: Option<String>,
    /// A hidden value never appears in rendered output.
    pub hidden: bool,
}

/// One argument of a command, positional or flag-like.
pub struct ArgumentNode {
    /// The raw identifier of the argument.
    pub id: String,
    /// Whether the argument is identified by position rather than a flag.
    pub positional: bool,
    /// The single-character short flag, when one exists.
    pub short: Option<char>,
    /// The long flag (without the leading dashes), when one exists.
    pub long: Option<String>,
    /// Declared value names; when empty and the argument accepts a value,
    /// the uppercased identifier stands in.
    pub value_names: Vec<String>,
    /// Whether the argument's action accepts a value (as opposed to pure
    /// boolean presence).
    pub takes_values: bool,
    /// Whether the argument's action is the pure set-true boolean action;
    /// possible values are suppressed exactly for this action.
    pub set_true: bool,
    /// Visible aliases, in declaration order.
    pub visible_aliases: Vec<String>,
    /// A hidden argument never appears among the rendered options.
    pub hidden: bool,
    /// Default values, in declaration order.
    pub default_values: Vec<String>,
    /// Permitted values, in declaration order.
    pub possible_values: Vec<PossibleValueNode>,
    /// Short help text, when any was declared.
    pub help: Option<String>,
    /// Long help text; preferred over the short form when both exist.
    pub long_help: Option<String>,
}

/// One command: the root or a subcommand.
pub struct CommandNode {
    /// The raw identifier of the command.
    pub name: String,
    /// The programmatic invocation name, when one was set.
    pub bin_name: Option<String>,
    /// The display name, when one was set; it wins over the other two.
    pub display_name: Option<String>,
    /// Short description, when any was declared.
    pub about: Option<String>,
    /// Long description; preferred over the short form when both exist.
    pub long_about: Option<String>,
    /// Text shown before the help body (short form).
    pub before_help: Option<String>,
    /// Text shown before the help body (long form, preferred).
    pub before_long_help: Option<String>,
    /// Text shown after the help body (short form).
    pub after_help: Option<String>,
    /// Text shown after the help body (long form, preferred).
    pub after_long_help: Option<String>,
    /// The command's rendered usage signature, as the external model
    /// renders it (possibly still carrying a leading `Usage: ` token).
    pub usage: String,
    /// Visible aliases, in declaration order.
    pub visible_aliases: Vec<String>,
    /// A hidden command produces no file and its subtree is not visited.
    pub hidden: bool,
    /// The command's arguments, in declaration order.
    pub args: Vec<ArgumentNode>,
    /// The command's subcommands, in declaration order.
    pub subcommands: Vec<CommandNode>,
}

/// The canonical name of a command: the display name if set, else the
/// programmatic invocation name if set, else the raw identifier.
pub open spec fn spec_canonical_name(c: CommandNode) -> Seq<char> {
    match c.display_name {
        Some(d) => d@,
        None => match c.bin_name {
            Some(b) => b@,
            None => c.name@,
        },
    }
}

/// Resolve the canonical name of a command.
pub fn get_canonical_name(command: &CommandNode) -> (r: String)
    ensures
        r@ == spec_canonical_name(*command),
{
    match &command.display_name {
        Some(d) => d.clone(),
        None => match &command.bin_name {
            Some(b) => b.clone(),
            None => command.name.clone(),
        },
    }
}

/// A renderable argument: a non-positional argument must carry a short or
/// a long flag.  A violation is an invariant violation of the upstream
/// model, not rendered.
pub open spec fn arg_wf(a: ArgumentNode) -> bool {
    !a.positional ==> (a.short is Some || a.long is Some)
}

/// Every argument of the command that the renderer reaches (positional,
/// or non-positional and not hidden) is renderable.
pub open spec fn cmd_args_wf(c: CommandNode) -> bool {
    forall|i: int|
        0 <= i < c.args@.len() && !(#[trigger] c.args@[i]).hidden ==> arg_wf(c.args@[i])
}

/// Well-formedness of the whole visible tree: the command's own arguments
/// are renderable, and so are those of every non-hidden descendant.
/// Hidden subtrees are never visited, so nothing is asked of them.
pub open spec fn cmd_tree_wf(c: CommandNode) -> bool
    decreases c,
{
    &&& cmd_args_wf(c)
    &&& forall|i: int|
        0 <= i < c.subcommands@.len() && !(#[trigger] c.subcommands@[i]).hidden
            ==> cmd_tree_wf(c.subcommands@[i])
}

} // verus!
