//! The tree walker: visit every non-hidden command depth-first, pair
//! each with its output path, and render each to its Markdown document.
//!
//! Paths are plain strings joined with `/`; the caller owns turning the
//! ordered (path, document) pairs into directories and files.

use vstd::prelude::*;
use vstd::string::StrSliceExecFns;
use vstd::string::StringExecFns;

use crate::model::CommandNode;
use crate::model::cmd_args_wf;
use crate::model::cmd_tree_wf;
use crate::model::get_canonical_name;
use crate::model::spec_canonical_name;
use crate::render::command_path;
use crate::render::spec_command_markdown;
use crate::render::write_command_markdown;

verus! {

broadcast use vstd::std_specs::vec::axiom_vec_index_decreases;

/// A directory path extended by one component, with a `/` between them
/// unless the directory is empty or already ends with one.
pub open spec fn spec_path_join(dir: Seq<char>, name: Seq<char>) -> Seq<char> {
    if dir.len() == 0 {
        name
    } else if dir[dir.len() - 1] == '/' {
        dir + name
    } else {
        dir + seq!['/'] + name
    }
}

/// Join a directory path and one further component.
pub fn path_join(dir: &str, name: &str) -> (r: String)
    ensures
        r@ == spec_path_join(dir@, name@),
{
    let n = dir.unicode_len();
    if n == 0 {
        return name.to_owned();
    }
    let last = dir.get_char(n - 1);
    let mut r = dir.to_owned();
    if last != '/' {
        r.append("/");
        proof {
            reveal_strlit("/");
        }
    }
    r.append(name);
    r
}

/// The output file of a command: `index.mdx` for a root command without
/// a custom display name, else the canonical name with the `.mdx`
/// extension, inside the parent's output directory.
pub open spec fn spec_file_name(c: CommandNode, parent: Seq<Seq<char>>, dir: Seq<char>) -> Seq<
    char,
> {
    if parent.len() == 0 && c.display_name is None {
        spec_path_join(dir, "index.mdx"@)
    } else {
        spec_path_join(dir, spec_canonical_name(c) + ".mdx"@)
    }
}

/// The ordered (path, document) pairs of a command and its non-hidden
/// descendants: the command's own file first, then each non-hidden
/// child's subtree in declaration order, inside a subdirectory named by
/// the command's canonical name.
pub open spec fn spec_generate(c: CommandNode, parent: Seq<Seq<char>>, dir: Seq<char>) -> Seq<
    (Seq<char>, Seq<char>),
>
    decreases c, 0int,
{
    seq![(spec_file_name(c, parent, dir), spec_command_markdown(parent, c))]
        + spec_generate_from(
        c.subcommands,
        0,
        parent.push(spec_canonical_name(c)),
        spec_path_join(dir, spec_canonical_name(c)),
    )
}

/// The pairs contributed by the children from position `i` on: a hidden
/// child contributes nothing, and its subtree is not visited.
pub open spec fn spec_generate_from(
    subs: Vec<CommandNode>,
    i: int,
    parent: Seq<Seq<char>>,
    dir: Seq<char>,
) -> Seq<(Seq<char>, Seq<char>)>
    decreases subs, subs@.len() - i,
{
    if i < 0 || i >= subs@.len() {
        Seq::empty()
    } else {
        (if subs@[i].hidden {
            Seq::<(Seq<char>, Seq<char>)>::empty()
        } else {
            spec_generate(subs@[i], parent, dir)
        }) + spec_generate_from(subs, i + 1, parent, dir)
    }
}

/// Render one command to the pair of its output path and its Markdown
/// document.
pub fn generate_command_to(
    command: &CommandNode,
    parent_command_path: &Vec<String>,
    path: String,
) -> (r: (String, String))
    requires
        cmd_args_wf(*command),
    ensures
        r.0 == path,
        r.1@ == spec_command_markdown(parent_command_path.deep_view(), *command),
{
    let doc = write_command_markdown(parent_command_path, command);
    (path, doc)
}

/// Walk one command and its non-hidden descendants.
fn generate_rec(command: &CommandNode, parent: &Vec<String>, dir: &str) -> (r: Vec<
    (String, String),
>)
    requires
        cmd_tree_wf(*command),
    ensures
        r.deep_view() == spec_generate(*command, parent.deep_view(), dir@),
    decreases *command,
{
    let name = get_canonical_name(command);
    let file = if parent.len() == 0 && command.display_name.is_none() {
        path_join(dir, "index.mdx")
    } else {
        let mut f = name.clone();
        f.append(".mdx");
        path_join(dir, f.as_str())
    };
    let pair = generate_command_to(command, parent, file);
    let mut r: Vec<(String, String)> = Vec::new();
    r.push(pair);
    let child_parent = command_path(parent, command);
    let child_dir = path_join(dir, name.as_str());
    let ghost target = spec_generate(*command, parent.deep_view(), dir@);
    let mut i: usize = 0;
    proof {
        assert(r.deep_view() + spec_generate_from(
            command.subcommands,
            0,
            child_parent.deep_view(),
            child_dir@,
        ) =~= target);
    }
    while i < command.subcommands.len()
        invariant
            i <= command.subcommands.len(),
            cmd_tree_wf(*command),
            child_parent.deep_view() == parent.deep_view().push(spec_canonical_name(*command)),
            child_dir@ == spec_path_join(dir@, spec_canonical_name(*command)),
            target == spec_generate(*command, parent.deep_view(), dir@),
            r.deep_view() + spec_generate_from(
                command.subcommands,
                i as int,
                child_parent.deep_view(),
                child_dir@,
            ) =~= target,
        decreases command.subcommands.len() - i,
    {
        if !command.subcommands[i].hidden {
            proof {
                assert(cmd_tree_wf(command.subcommands@[i as int]));
            }
            let mut sub = generate_rec(&command.subcommands[i], &child_parent, child_dir.as_str());
            let ghost sub_view = sub.deep_view();
            let ghost r_view = r.deep_view();
            r.append(&mut sub);
            proof {
                assert(r.deep_view() =~= r_view + sub_view);
            }
        }
        proof {
            assert(r.deep_view() + spec_generate_from(
                command.subcommands,
                i + 1,
                child_parent.deep_view(),
                child_dir@,
            ) =~= target);
        }
        i += 1;
    }
    proof {
        assert(r.deep_view() =~= target);
    }
    r
}

/// Generate the documentation tree of a root command: the ordered
/// (path, document) pairs of every non-hidden command, depth-first,
/// child order preserved, rooted at the output directory.
pub fn generate_to(command: &CommandNode, out_dir: &str) -> (r: Vec<(String, String)>)
    requires
        cmd_tree_wf(*command),
    ensures
        r.deep_view() == spec_generate(*command, Seq::empty(), out_dir@),
{
    let parent: Vec<String> = Vec::new();
    proof {
        assert(parent.deep_view() =~= Seq::<Seq<char>>::empty());
    }
    generate_rec(command, &parent, out_dir)
}

} // verus!
