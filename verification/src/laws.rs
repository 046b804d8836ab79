//! The laws of the renderer, stated over the same spec functions the
//! executable contracts use, and proved once and for all.

use vstd::prelude::*;

use crate::model::ArgumentNode;
use crate::model::CommandNode;
use crate::model::PossibleValueNode;
use crate::model::spec_canonical_name;
use crate::render::spec_command_markdown;
use crate::render::spec_defaults_part;
use crate::render::spec_has_option;
use crate::render::spec_is_option;
use crate::render::spec_option_items;
use crate::render::spec_options_section;
use crate::render::spec_pv_bullets;
use crate::render::spec_strip_usage;
use crate::render::spec_subcommand_items;
use crate::render::spec_usage_prefix;
use crate::render::spec_usage_section;
use crate::render::spec_visible_pv_names;
use crate::text::first_nl;
use crate::text::lemma_first_nl;
use crate::text::lemma_first_nl_at;
use crate::text::spec_indent;
use crate::text::spec_indent_lines;
use crate::text::spec_join;
use crate::text::spec_lines;
use crate::text::spec_pluralize;
use crate::text::spec_quoted_list;
use crate::text::strip_cr;
use crate::walk::spec_generate_from;

verus! {

/// The document of every command begins with a front-matter title that
/// is exactly the space-joined path of canonical names from the root
/// down to the command itself, whatever mix of display, invocation and
/// raw names the commands carry.
pub proof fn lemma_front_matter_title(parent: Seq<Seq<char>>, c: CommandNode)
    ensures
        ({
            let title = spec_join(parent.push(spec_canonical_name(c)), " "@);
            spec_command_markdown(parent, c).take(11 + title.len() as int + 1) == "---\ntitle: "@ + title
                + seq!['\n']
        }),
{
    reveal_strlit("---\ntitle: ");
    reveal_strlit("\nisCommand: true\n---\n\n");
    let title = spec_join(parent.push(spec_canonical_name(c)), " "@);
    assert(spec_command_markdown(parent, c).take(11 + title.len() as int + 1) =~= "---\ntitle: "@
        + title + seq!['\n']);
}

/// Canonical-name resolution: a display name always wins; the invocation
/// name wins over the raw name when no display name is set; the raw name
/// stands only when neither is set.
pub proof fn lemma_canonical_name_resolution(c: CommandNode)
    ensures
        c.display_name is Some ==> spec_canonical_name(c) == c.display_name->0@,
        c.display_name is None && c.bin_name is Some ==> spec_canonical_name(c) == c.bin_name->0@,
        c.display_name is None && c.bin_name is None ==> spec_canonical_name(c) == c.name@,
{
}

/// A hidden subcommand contributes no file at all: the walk of the
/// children passes over it, subtree included, so no file is produced for
/// any of its descendants.
pub proof fn lemma_hidden_command_skipped(
    subs: Vec<CommandNode>,
    i: int,
    parent: Seq<Seq<char>>,
    dir: Seq<char>,
)
    requires
        0 <= i < subs@.len(),
        subs@[i].hidden,
    ensures
        spec_generate_from(subs, i, parent, dir) == spec_generate_from(subs, i + 1, parent, dir),
{
    assert(Seq::<(Seq<char>, Seq<char>)>::empty() + spec_generate_from(subs, i + 1, parent, dir)
        =~= spec_generate_from(subs, i + 1, parent, dir));
}

/// A hidden subcommand is absent from its parent's subcommand index.
pub proof fn lemma_hidden_subcommand_unlisted(
    subs: Seq<CommandNode>,
    i: int,
    path_str: Seq<char>,
)
    requires
        0 <= i < subs.len(),
        subs[i].hidden,
    ensures
        spec_subcommand_items(subs, i, path_str) == spec_subcommand_items(subs, i + 1, path_str),
{
    assert(Seq::<char>::empty() + spec_subcommand_items(subs, i + 1, path_str)
        =~= spec_subcommand_items(subs, i + 1, path_str));
}

/// A hidden argument is absent from the options index.
pub proof fn lemma_hidden_option_skipped(args: Seq<ArgumentNode>, i: int)
    requires
        0 <= i < args.len(),
        args[i].hidden,
    ensures
        spec_option_items(args, i) == spec_option_items(args, i + 1),
{
    assert(Seq::<char>::empty() + spec_option_items(args, i + 1) =~= spec_option_items(
        args,
        i + 1,
    ));
}

/// A hidden possible value is absent from the bulleted value list and
/// from the inline value list alike.
pub proof fn lemma_hidden_possible_value_skipped(pvs: Seq<PossibleValueNode>, i: int)
    requires
        0 <= i < pvs.len(),
        pvs[i].hidden,
    ensures
        spec_pv_bullets(pvs, i) == spec_pv_bullets(pvs, i + 1),
        i == 0 ==> spec_visible_pv_names(pvs) == spec_visible_pv_names(pvs.drop_first()),
{
    assert(Seq::<char>::empty() + spec_pv_bullets(pvs, i + 1) =~= spec_pv_bullets(pvs, i + 1));
    if i == 0 {
        assert(Seq::<Seq<char>>::empty() + spec_visible_pv_names(pvs.drop_first())
            =~= spec_visible_pv_names(pvs.drop_first()));
    }
}

/// Pluralization boundary: a count of exactly one picks the singular
/// label, a count of two or more the plural one; the default-value part
/// switches its label at the same boundary.
pub proof fn lemma_pluralization_boundary(
    singular: Seq<char>,
    plural: Seq<char>,
    n: nat,
    dvs: Seq<Seq<char>>,
)
    ensures
        spec_pluralize(1, singular, plural) == singular,
        n >= 2 ==> spec_pluralize(n, singular, plural) == plural,
        dvs.len() == 1 ==> spec_defaults_part(dvs) == "\n  Default value: "@ + spec_quoted_list(
            dvs,
        ) + seq!['\n'],
        dvs.len() >= 2 ==> spec_defaults_part(dvs) == "\n  Default values: "@ + spec_quoted_list(
            dvs,
        ) + seq!['\n'],
{
}

/// Indenting the empty text yields exactly one newline.
pub proof fn lemma_indent_empty(first: Seq<char>, rest: Seq<char>)
    ensures
        spec_indent(Seq::empty(), first, rest) == seq!['\n'],
{
}

/// Splitting into lines ignores one appended final newline, as long as
/// the text did not already end in a newline or a carriage return.
pub proof fn lemma_lines_push_newline(s: Seq<char>)
    requires
        s.len() > 0,
        s[s.len() - 1] != '\n',
        s[s.len() - 1] != '\r',
    ensures
        spec_lines(s.push('\n')) == spec_lines(s),
    decreases s.len(),
{
    let s2 = s.push('\n');
    lemma_first_nl(s);
    let i = first_nl(s);
    if i == s.len() {
        assert(forall|k: int| 0 <= k < s.len() ==> s2[k] == s[k]);
        lemma_first_nl_at(s2, s.len() as int);
        assert(s2.take(s.len() as int) =~= s);
        assert(strip_cr(s) == s);
        assert(s2.skip(s.len() as int + 1) =~= Seq::<char>::empty());
        assert(spec_lines(Seq::<char>::empty()) == Seq::<Seq<char>>::empty());
        assert(spec_lines(s2) == seq![strip_cr(s2.take(s.len() as int))] + spec_lines(
            s2.skip(s.len() as int + 1),
        ));
        assert(spec_lines(s2) =~= seq![s]);
        assert(spec_lines(s) == seq![s]);
    } else {
        assert(forall|k: int| 0 <= k < i ==> s2[k] == s[k]);
        lemma_first_nl_at(s2, i);
        assert(s2.take(i) =~= s.take(i));
        let tail = s.skip(i + 1);
        assert(s2.skip(i + 1) =~= tail.push('\n'));
        assert(i < s.len() - 1) by {
            if i == s.len() - 1 {
                assert(s[s.len() - 1] == '\n');
            }
        }
        assert(tail.len() > 0);
        assert(tail[tail.len() - 1] == s[s.len() - 1]);
        lemma_lines_push_newline(tail);
        assert(spec_lines(s2) == seq![strip_cr(s2.take(i))] + spec_lines(s2.skip(i + 1)));
        assert(spec_lines(s) == seq![strip_cr(s.take(i))] + spec_lines(tail));
    }
}

/// The indentation rule ignores one appended final newline, as long as
/// the text did not already end in a newline or a carriage return.
pub proof fn lemma_indent_trailing_newline(s: Seq<char>, first: Seq<char>, rest: Seq<char>)
    requires
        s.len() == 0 || (s[s.len() - 1] != '\n' && s[s.len() - 1] != '\r'),
    ensures
        spec_indent(s.push('\n'), first, rest) == spec_indent(s, first, rest),
{
    let s2 = s.push('\n');
    if s.len() == 0 {
        assert(s2 =~= seq!['\n']);
        lemma_first_nl_at(s2, 0);
        assert(s2.take(0) =~= Seq::<char>::empty());
        assert(s2.skip(1) =~= Seq::<char>::empty());
        assert(strip_cr(s2.take(0)) == Seq::<char>::empty());
        assert(spec_lines(Seq::<char>::empty()) == Seq::<Seq<char>>::empty());
        assert(spec_lines(s2) == seq![strip_cr(s2.take(0))] + spec_lines(s2.skip(1)));
        assert(spec_lines(s2) =~= seq![Seq::<char>::empty()]);
        let ls = spec_lines(s2);
        assert(ls[0].len() == 0);
        assert(ls.drop_first() =~= Seq::<Seq<char>>::empty());
        assert(spec_indent_lines(ls, first, rest, true) == seq!['\n'] + spec_indent_lines(
            ls.drop_first(),
            first,
            rest,
            true,
        ));
        assert(spec_indent(s2, first, rest) =~= seq!['\n']);
    } else {
        lemma_lines_push_newline(s);
    }
}

/// A command whose non-positional arguments are all hidden gets no
/// options heading at all: the options section is empty.
pub proof fn lemma_all_options_hidden_no_heading(args: Seq<ArgumentNode>)
    requires
        forall|i: int| 0 <= i < args.len() && !(#[trigger] args[i]).positional ==> args[i].hidden,
    ensures
        spec_options_section(args) == Seq::<char>::empty(),
{
    assert(!spec_has_option(args)) by {
        if spec_has_option(args) {
            let i = choose|i: int| 0 <= i < args.len() && spec_is_option(#[trigger] args[i]);
            assert(args[i].hidden);
        }
    }
}

/// Usage stripping removes exactly one leading `Usage: ` token and
/// leaves a signature without one untouched.
pub proof fn lemma_strip_usage(u: Seq<char>, tail: Seq<char>)
    ensures
        u == "Usage: "@ + tail ==> spec_strip_usage(u) == tail,
        u.len() < 7 || u.take(7) != "Usage: "@ ==> spec_strip_usage(u) == u,
{
    reveal_strlit("Usage: ");
    if u == "Usage: "@ + tail {
        assert(u.take(7) =~= "Usage: "@);
        assert(u.skip(7) =~= tail);
    }
}

/// The usage block holds the stripped signature alone for the root
/// command, and prefixes the space-joined ancestor path plus one space
/// for every other command.
pub proof fn lemma_usage_prefix(parent: Seq<Seq<char>>, u: Seq<char>)
    ensures
        parent.len() == 0 ==> spec_usage_section(parent, u) == "```shell title=\"Usage\"\n"@
            + spec_strip_usage(u) + "\n```\n\n"@,
        parent.len() > 0 ==> spec_usage_section(parent, u) == "```shell title=\"Usage\"\n"@ + (
        spec_join(parent, " "@) + " "@) + spec_strip_usage(u) + "\n```\n\n"@,
{
    if parent.len() == 0 {
        assert(spec_usage_prefix(parent) == Seq::<char>::empty());
        assert("```shell title=\"Usage\"\n"@ + Seq::<char>::empty() + spec_strip_usage(u)
            + "\n```\n\n"@ =~= "```shell title=\"Usage\"\n"@ + spec_strip_usage(u) + "\n```\n\n"@);
    }
}

} // verus!
