//! The command renderer: one command plus its ancestor path becomes one
//! Markdown document, section by section; one argument becomes one
//! Markdown list item.

use vstd::prelude::*;
use vstd::string::StrSliceExecFns;
use vstd::string::StringExecFns;

use crate::model::ArgumentNode;
use crate::model::CommandNode;
use crate::model::PossibleValueNode;
use crate::model::arg_wf;
use crate::model::cmd_args_wf;
use crate::model::get_canonical_name;
use crate::model::spec_canonical_name;
use crate::text::join_strings;
use crate::text::pluralize;
use crate::text::push_char;
use crate::text::quoted_list;
use crate::text::indent;
use crate::text::ascii_uppercase;
use crate::text::spec_indent;
use crate::text::spec_join;
use crate::text::spec_pluralize;
use crate::text::spec_quoted_list;
use crate::text::spec_upper;

verus! {

/// The preference chain for a pair of long and short text fields: the
/// long form when present, else the short form, else nothing.
pub open spec fn spec_prefer(long: Option<String>, short: Option<String>) -> Option<Seq<char>> {
    match long {
        Some(l) => Some(l@),
        None => match short {
            Some(s) => Some(s@),
            None => None,
        },
    }
}

/// A paragraph: the text followed by a blank line, or nothing at all.
pub open spec fn spec_paragraph(t: Option<Seq<char>>) -> Seq<char> {
    match t {
        Some(x) => x + "\n\n"@,
        None => Seq::empty(),
    }
}

/// Render the preferred form of a long/short text pair as a paragraph;
/// empty when neither form exists.
fn preferred_paragraph(long: &Option<String>, short: &Option<String>) -> (r: String)
    ensures
        r@ == spec_paragraph(spec_prefer(*long, *short)),
{
    match long {
        Some(x) => {
            let mut r = x.clone();
            r.append("\n\n");
            r
        },
        None => match short {
            Some(x) => {
                let mut r = x.clone();
                r.append("\n\n");
                r
            },
            None => String::new(),
        },
    }
}

/// The value name of an argument: the first declared value name, or the
/// uppercased identifier when none was declared.
pub open spec fn spec_value_name(a: ArgumentNode) -> Seq<char> {
    if a.value_names@.len() > 0 {
        a.value_names@[0]@
    } else {
        spec_upper(a.id@)
    }
}

/// Resolve the value name of an argument.
fn value_name(a: &ArgumentNode) -> (r: String)
    ensures
        r@ == spec_value_name(*a),
{
    if a.value_names.len() > 0 {
        a.value_names[0].clone()
    } else {
        ascii_uppercase(a.id.as_str())
    }
}

/// The backtick-quoted signature of an argument, keyed on which of the
/// short and long flags exist and on whether the action takes a value.
pub open spec fn spec_arg_signature(a: ArgumentNode) -> Seq<char> {
    let vn = spec_value_name(a);
    match a.short {
        Some(s) => match a.long {
            Some(l) => if a.takes_values {
                "`-"@ + seq![s] + "`, `--"@ + l@ + " <"@ + vn + ">`"@
            } else {
                "`-"@ + seq![s] + "`, `--"@ + l@ + "`"@
            },
            None => if a.takes_values {
                "`-"@ + seq![s] + " <"@ + vn + ">`"@
            } else {
                "`-"@ + seq![s] + "`"@
            },
        },
        None => match a.long {
            Some(l) => if a.takes_values {
                "`--"@ + l@ + " <"@ + vn + ">`"@
            } else {
                "`--"@ + l@ + "`"@
            },
            None => "`<"@ + vn + ">`"@,
        },
    }
}

/// Render the signature of an argument.
fn arg_signature(a: &ArgumentNode) -> (r: String)
    requires
        arg_wf(*a),
    ensures
        r@ == spec_arg_signature(*a),
{
    let vn = value_name(a);
    match (a.short, &a.long) {
        (Some(s), Some(l)) => {
            let mut r = "`-".to_owned();
            push_char(&mut r, s);
            r.append("`, `--");
            r.append(l.as_str());
            if a.takes_values {
                r.append(" <");
                r.append(vn.as_str());
                r.append(">`");
            } else {
                r.append("`");
            }
            r
        },
        (Some(s), None) => {
            let mut r = "`-".to_owned();
            push_char(&mut r, s);
            if a.takes_values {
                r.append(" <");
                r.append(vn.as_str());
                r.append(">`");
            } else {
                r.append("`");
            }
            r
        },
        (None, Some(l)) => {
            let mut r = "`--".to_owned();
            r.append(l.as_str());
            if a.takes_values {
                r.append(" <");
                r.append(vn.as_str());
                r.append(">`");
            } else {
                r.append("`");
            }
            r
        },
        (None, None) => {
            let mut r = "`<".to_owned();
            r.append(vn.as_str());
            r.append(">`");
            r
        },
    }
}

/// The bracketed alias clause of an argument, empty when it has no
/// visible alias.
pub open spec fn spec_arg_alias_clause(aliases: Seq<Seq<char>>) -> Seq<char> {
    if aliases.len() == 0 {
        Seq::empty()
    } else {
        " ["@ + spec_pluralize(aliases.len(), "alias"@, "aliases"@) + ": "@ + spec_quoted_list(
            aliases,
        ) + "]"@
    }
}

/// Render the alias clause of an argument.
fn arg_alias_clause(aliases: &Vec<String>) -> (r: String)
    ensures
        r@ == spec_arg_alias_clause(aliases.deep_view()),
{
    if aliases.len() == 0 {
        String::new()
    } else {
        let mut r = " [".to_owned();
        r.append(pluralize(aliases.len(), "alias", "aliases"));
        r.append(": ");
        let q = quoted_list(aliases);
        r.append(q.as_str());
        r.append("]");
        r
    }
}

/// The help part of an argument item: long help run through the
/// indentation rule, else short help inline, else a bare newline.
pub open spec fn spec_arg_help(a: ArgumentNode) -> Seq<char> {
    match a.long_help {
        Some(lh) => spec_indent(lh@, " — "@, "  "@),
        None => match a.help {
            Some(h) => " — "@ + h@ + seq!['\n'],
            None => seq!['\n'],
        },
    }
}

/// Render the help part of an argument item.
fn arg_help(a: &ArgumentNode) -> (r: String)
    ensures
        r@ == spec_arg_help(*a),
{
    match &a.long_help {
        Some(lh) => indent(lh.as_str(), " — ", "  "),
        None => match &a.help {
            Some(h) => {
                let mut r = " — ".to_owned();
                r.append(h.as_str());
                r.append("\n");
                proof {
                    reveal_strlit("\n");
                }
                r
            },
            None => {
                proof {
                    reveal_strlit("\n");
                }
                "\n".to_owned()
            },
        },
    }
}

/// The default-value part of an argument item: empty when no default
/// exists, the singular label for one, the plural label for more.
pub open spec fn spec_defaults_part(dvs: Seq<Seq<char>>) -> Seq<char> {
    if dvs.len() == 0 {
        Seq::empty()
    } else if dvs.len() > 1 {
        "\n  Default values: "@ + spec_quoted_list(dvs) + seq!['\n']
    } else {
        "\n  Default value: "@ + spec_quoted_list(dvs) + seq!['\n']
    }
}

/// Render the default-value part of an argument item.
fn defaults_part(dvs: &Vec<String>) -> (r: String)
    ensures
        r@ == spec_defaults_part(dvs.deep_view()),
{
    if dvs.len() == 0 {
        String::new()
    } else {
        let mut r = if dvs.len() > 1 {
            "\n  Default values: ".to_owned()
        } else {
            "\n  Default value: ".to_owned()
        };
        let q = quoted_list(dvs);
        r.append(q.as_str());
        r.append("\n");
        proof {
            reveal_strlit("\n");
        }
        r
    }
}

/// Whether any possible value survives the hidden filter.
pub open spec fn spec_has_visible_pv(pvs: Seq<PossibleValueNode>) -> bool {
    exists|i: int| 0 <= i < pvs.len() && !(#[trigger] pvs[i]).hidden
}

/// Whether any visible possible value carries help text.
pub open spec fn spec_any_pv_help(pvs: Seq<PossibleValueNode>) -> bool {
    exists|i: int| 0 <= i < pvs.len() && !(#[trigger] pvs[i]).hidden && pvs[i].help is Some
}

/// The names of the visible possible values, in declaration order.
pub open spec fn spec_visible_pv_names(pvs: Seq<PossibleValueNode>) -> Seq<Seq<char>>
    decreases pvs.len(),
{
    if pvs.len() == 0 {
        Seq::empty()
    } else {
        (if pvs[0].hidden {
            Seq::<Seq<char>>::empty()
        } else {
            seq![pvs[0].name@]
        }) + spec_visible_pv_names(pvs.drop_first())
    }
}

/// One bulleted list item per visible possible value, from position `i`
/// on: the quoted name, and its help text on an indented next line when
/// it has any.
pub open spec fn spec_pv_bullets(pvs: Seq<PossibleValueNode>, i: int) -> Seq<char>
    decreases pvs.len() - i,
{
    if i < 0 || i >= pvs.len() {
        Seq::empty()
    } else {
        (if pvs[i].hidden {
            Seq::<char>::empty()
        } else {
            match pvs[i].help {
                Some(h) => "  - `"@ + pvs[i].name@ + "`:\n    "@ + h@ + seq!['\n'],
                None => "  - `"@ + pvs[i].name@ + "`\n"@,
            }
        }) + spec_pv_bullets(pvs, i + 1)
    }
}

/// The possible-value part of an argument item: skipped for the pure
/// set-true action and when no visible value exists; a nested bulleted
/// list when any visible value carries help text; one inline line
/// otherwise.
pub open spec fn spec_pv_part(a: ArgumentNode) -> Seq<char> {
    let pvs = a.possible_values@;
    if !spec_has_visible_pv(pvs) || a.set_true {
        Seq::empty()
    } else if spec_any_pv_help(pvs) {
        "\n  Possible values:\n\n"@ + spec_pv_bullets(pvs, 0) + seq!['\n']
    } else {
        "\n  Possible values: "@ + spec_quoted_list(spec_visible_pv_names(pvs)) + "\n\n"@
    }
}

/// Render the possible-value part of an argument item.
fn pv_part(a: &ArgumentNode) -> (r: String)
    ensures
        r@ == spec_pv_part(*a),
{
    let pvs = &a.possible_values;
    let mut has_visible = false;
    let mut any_help = false;
    let mut i: usize = 0;
    while i < pvs.len()
        invariant
            i <= pvs.len(),
            has_visible <==> exists|k: int| 0 <= k < i && !(#[trigger] pvs@[k]).hidden,
            any_help <==> exists|k: int|
                0 <= k < i && !(#[trigger] pvs@[k]).hidden && pvs@[k].help is Some,
        decreases pvs.len() - i,
    {
        if !pvs[i].hidden {
            has_visible = true;
            if pvs[i].help.is_some() {
                any_help = true;
            }
        }
        i += 1;
    }
    if !has_visible || a.set_true {
        String::new()
    } else if any_help {
        let mut r = "\n  Possible values:\n\n".to_owned();
        let items = pv_bullets(pvs);
        r.append(items.as_str());
        r.append("\n");
        proof {
            reveal_strlit("\n");
        }
        r
    } else {
        let mut names: Vec<String> = Vec::new();
        let mut j: usize = 0;
        proof {
            assert(pvs@.skip(0) =~= pvs@);
            assert(names.deep_view() + spec_visible_pv_names(pvs@.skip(0)) =~= spec_visible_pv_names(
                pvs@,
            ));
        }
        while j < pvs.len()
            invariant
                j <= pvs.len(),
                names.deep_view() + spec_visible_pv_names(pvs@.skip(j as int))
                    =~= spec_visible_pv_names(pvs@),
            decreases pvs.len() - j,
        {
            proof {
                assert(pvs@.skip(j as int).drop_first() =~= pvs@.skip(j + 1));
                assert(pvs@.skip(j as int)[0] == pvs@[j as int]);
            }
            if !pvs[j].hidden {
                names.push(pvs[j].name.clone());
            }
            proof {
                assert(names.deep_view() + spec_visible_pv_names(pvs@.skip(j + 1))
                    =~= spec_visible_pv_names(pvs@));
            }
            j += 1;
        }
        proof {
            assert(pvs@.skip(pvs@.len() as int) =~= Seq::<PossibleValueNode>::empty());
            assert(names.deep_view() =~= spec_visible_pv_names(pvs@));
        }
        let mut r = "\n  Possible values: ".to_owned();
        let q = quoted_list(&names);
        r.append(q.as_str());
        r.append("\n\n");
        r
    }
}

/// Render the bulleted list of visible possible values.
fn pv_bullets(pvs: &Vec<PossibleValueNode>) -> (r: String)
    ensures
        r@ == spec_pv_bullets(pvs@, 0),
{
    let mut r = String::new();
    let mut i: usize = 0;
    proof {
        assert(Seq::<char>::empty() + spec_pv_bullets(pvs@, 0) =~= spec_pv_bullets(pvs@, 0));
    }
    while i < pvs.len()
        invariant
            i <= pvs.len(),
            r@ + spec_pv_bullets(pvs@, i as int) =~= spec_pv_bullets(pvs@, 0),
        decreases pvs.len() - i,
    {
        if !pvs[i].hidden {
            match &pvs[i].help {
                Some(h) => {
                    let mut item = "  - `".to_owned();
                    item.append(pvs[i].name.as_str());
                    item.append("`:\n    ");
                    item.append(h.as_str());
                    item.append("\n");
                    proof {
                        reveal_strlit("\n");
                    }
                    r.append(item.as_str());
                },
                None => {
                    let mut item = "  - `".to_owned();
                    item.append(pvs[i].name.as_str());
                    item.append("`\n");
                    r.append(item.as_str());
                },
            }
        }
        proof {
            assert(r@ + spec_pv_bullets(pvs@, i + 1) =~= spec_pv_bullets(pvs@, 0));
        }
        i += 1;
    }
    r
}

/// One Markdown list item for one argument: the signature, the alias
/// clause, the help text, the default values, and the possible values.
pub open spec fn spec_arg_markdown(a: ArgumentNode) -> Seq<char> {
    "- "@ + spec_arg_signature(a) + spec_arg_alias_clause(a.visible_aliases.deep_view())
        + spec_arg_help(a) + spec_defaults_part(a.default_values.deep_view()) + spec_pv_part(a)
}

/// Render one argument as one Markdown list item with its continuation
/// lines.
pub fn write_arg_markdown(arg: &ArgumentNode) -> (r: String)
    requires
        arg_wf(*arg),
    ensures
        r@ == spec_arg_markdown(*arg),
{
    let mut r = "- ".to_owned();
    let sig = arg_signature(arg);
    r.append(sig.as_str());
    let aliases = arg_alias_clause(&arg.visible_aliases);
    r.append(aliases.as_str());
    let help = arg_help(arg);
    r.append(help.as_str());
    let defaults = defaults_part(&arg.default_values);
    r.append(defaults.as_str());
    let pv = pv_part(arg);
    r.append(pv.as_str());
    r
}

/// The front-matter block: the title is the space-joined path from the
/// root down to this command, and a literal marker names the document a
/// command page.
pub open spec fn spec_front_matter(path: Seq<Seq<char>>) -> Seq<char> {
    "---\ntitle: "@ + spec_join(path, " "@) + "\nisCommand: true\n---\n\n"@
}

/// The usage signature with one leading `Usage: ` token removed, when it
/// starts with one.
pub open spec fn spec_strip_usage(u: Seq<char>) -> Seq<char> {
    if u.len() >= 7 && u.take(7) == "Usage: "@ {
        u.skip(7)
    } else {
        u
    }
}

/// The ancestor prefix of the usage line: empty for the root command,
/// else the space-joined ancestor path with a trailing space.
pub open spec fn spec_usage_prefix(parent: Seq<Seq<char>>) -> Seq<char> {
    if parent.len() == 0 {
        Seq::empty()
    } else {
        spec_join(parent, " "@) + " "@
    }
}

/// The usage block: a fenced shell-labeled code block holding the
/// ancestor prefix and the stripped usage signature on one line.
pub open spec fn spec_usage_section(parent: Seq<Seq<char>>, usage: Seq<char>) -> Seq<char> {
    "```shell title=\"Usage\"\n"@ + spec_usage_prefix(parent) + spec_strip_usage(usage)
        + "\n```\n\n"@
}

/// Strip one leading `Usage: ` token from the usage signature.
fn strip_usage(usage: &str) -> (r: String)
    ensures
        r@ == spec_strip_usage(usage@),
{
    let n = usage.unicode_len();
    if n >= 7 {
        let head = usage.substring_char(0, 7);
        if head.to_owned() == "Usage: ".to_owned() {
            proof {
                assert(usage@.take(7) =~= usage@.subrange(0, 7));
            }
            return usage.substring_char(7, n).to_owned();
        }
    }
    proof {
        if usage@.len() >= 7 {
            assert(usage@.take(7) =~= usage@.subrange(0, 7));
        }
    }
    usage.to_owned()
}

/// Render the usage block of a command.
fn usage_section(parent: &Vec<String>, usage: &str) -> (r: String)
    ensures
        r@ == spec_usage_section(parent.deep_view(), usage@),
{
    let mut r = "```shell title=\"Usage\"\n".to_owned();
    let prefix = if parent.len() == 0 {
        String::new()
    } else {
        let mut p = join_strings(parent, " ");
        p.append(" ");
        p
    };
    r.append(prefix.as_str());
    let stripped = strip_usage(usage);
    r.append(stripped.as_str());
    r.append("\n```\n\n");
    r
}

/// The command-alias line: empty when no visible alias exists, else a
/// bold singular or plural label followed by the quoted aliases.
pub open spec fn spec_cmd_alias_section(aliases: Seq<Seq<char>>) -> Seq<char> {
    if aliases.len() == 0 {
        Seq::empty()
    } else {
        "**"@ + spec_pluralize(aliases.len(), "Command Alias"@, "Command Aliases"@) + ":** "@
            + spec_quoted_list(aliases) + "\n\n"@
    }
}

/// Render the command-alias line.
fn cmd_alias_section(aliases: &Vec<String>) -> (r: String)
    ensures
        r@ == spec_cmd_alias_section(aliases.deep_view()),
{
    if aliases.len() == 0 {
        String::new()
    } else {
        let mut r = "**".to_owned();
        r.append(pluralize(aliases.len(), "Command Alias", "Command Aliases"));
        r.append(":** ");
        let q = quoted_list(aliases);
        r.append(q.as_str());
        r.append("\n\n");
        r
    }
}

/// One index entry per non-hidden subcommand, from position `i` on: a
/// link to the child's document with the child's short description
/// beside it.
pub open spec fn spec_subcommand_items(
    subs: Seq<CommandNode>,
    i: int,
    path_str: Seq<char>,
) -> Seq<char>
    decreases subs.len() - i,
{
    if i < 0 || i >= subs.len() {
        Seq::empty()
    } else {
        (if subs[i].hidden {
            Seq::<char>::empty()
        } else {
            "- [`"@ + spec_canonical_name(subs[i]) + "`](./"@ + path_str + "/"@
                + spec_canonical_name(subs[i]) + ") — "@ + (match subs[i].about {
                Some(a) => a@,
                None => Seq::<char>::empty(),
            }) + "\n"@
        }) + spec_subcommand_items(subs, i + 1, path_str)
    }
}

/// The subcommand index: present as soon as any subcommand exists, even
/// a hidden one, but listing only the non-hidden children.
pub open spec fn spec_subcommands_section(
    subs: Seq<CommandNode>,
    path_str: Seq<char>,
) -> Seq<char> {
    if subs.len() == 0 {
        Seq::empty()
    } else {
        "### Subcommands\n\n"@ + spec_subcommand_items(subs, 0, path_str) + seq!['\n']
    }
}

/// Render the subcommand index of a command.
fn subcommands_section(subs: &Vec<CommandNode>, path_str: &str) -> (r: String)
    ensures
        r@ == spec_subcommands_section(subs@, path_str@),
{
    if subs.len() == 0 {
        return String::new();
    }
    let mut r = "### Subcommands\n\n".to_owned();
    let mut items = String::new();
    let mut i: usize = 0;
    proof {
        assert(Seq::<char>::empty() + spec_subcommand_items(subs@, 0, path_str@)
            =~= spec_subcommand_items(subs@, 0, path_str@));
    }
    while i < subs.len()
        invariant
            i <= subs.len(),
            items@ + spec_subcommand_items(subs@, i as int, path_str@) =~= spec_subcommand_items(
                subs@,
                0,
                path_str@,
            ),
        decreases subs.len() - i,
    {
        if !subs[i].hidden {
            let name = get_canonical_name(&subs[i]);
            let mut item = "- [`".to_owned();
            item.append(name.as_str());
            item.append("`](./");
            item.append(path_str);
            item.append("/");
            item.append(name.as_str());
            item.append(") — ");
            let about = match &subs[i].about {
                Some(a) => a.clone(),
                None => String::new(),
            };
            item.append(about.as_str());
            item.append("\n");
            items.append(item.as_str());
        }
        proof {
            assert(items@ + spec_subcommand_items(subs@, i + 1, path_str@)
                =~= spec_subcommand_items(subs@, 0, path_str@));
        }
        i += 1;
    }
    r.append(items.as_str());
    r.append("\n");
    proof {
        reveal_strlit("\n");
    }
    r
}

/// Whether the command has a positional argument.
pub open spec fn spec_has_positional(args: Seq<ArgumentNode>) -> bool {
    exists|i: int| 0 <= i < args.len() && (#[trigger] args[i]).positional
}

/// One rendered entry per positional argument, from position `i` on, in
/// declaration order.
pub open spec fn spec_positional_items(args: Seq<ArgumentNode>, i: int) -> Seq<char>
    decreases args.len() - i,
{
    if i < 0 || i >= args.len() {
        Seq::empty()
    } else {
        (if args[i].positional {
            spec_arg_markdown(args[i])
        } else {
            Seq::<char>::empty()
        }) + spec_positional_items(args, i + 1)
    }
}

/// The positional-argument index, present as soon as any positional
/// argument exists.
pub open spec fn spec_positionals_section(args: Seq<ArgumentNode>) -> Seq<char> {
    if spec_has_positional(args) {
        "### Arguments\n\n"@ + spec_positional_items(args, 0) + seq!['\n']
    } else {
        Seq::empty()
    }
}

/// An option entry: a non-positional argument that is not hidden.
pub open spec fn spec_is_option(a: ArgumentNode) -> bool {
    !a.positional && !a.hidden
}

/// Whether the command has a renderable option.
pub open spec fn spec_has_option(args: Seq<ArgumentNode>) -> bool {
    exists|i: int| 0 <= i < args.len() && spec_is_option(#[trigger] args[i])
}

/// One rendered entry per non-positional, non-hidden argument, from
/// position `i` on, in declaration order.
pub open spec fn spec_option_items(args: Seq<ArgumentNode>, i: int) -> Seq<char>
    decreases args.len() - i,
{
    if i < 0 || i >= args.len() {
        Seq::empty()
    } else {
        (if spec_is_option(args[i]) {
            spec_arg_markdown(args[i])
        } else {
            Seq::<char>::empty()
        }) + spec_option_items(args, i + 1)
    }
}

/// The options index, present exactly when some non-positional argument
/// is not hidden.
pub open spec fn spec_options_section(args: Seq<ArgumentNode>) -> Seq<char> {
    if spec_has_option(args) {
        "### Options\n\n"@ + spec_option_items(args, 0) + seq!['\n']
    } else {
        Seq::empty()
    }
}

/// Render the positional-argument index of a command.
fn positionals_section(args: &Vec<ArgumentNode>) -> (r: String)
    requires
        forall|i: int| 0 <= i < args@.len() ==> arg_wf(#[trigger] args@[i]) || args@[i].hidden,
    ensures
        r@ == spec_positionals_section(args@),
{
    let mut found = false;
    let mut i: usize = 0;
    while i < args.len()
        invariant
            i <= args.len(),
            found <==> exists|k: int| 0 <= k < i && (#[trigger] args@[k]).positional,
        decreases args.len() - i,
    {
        if args[i].positional {
            found = true;
        }
        i += 1;
    }
    if !found {
        return String::new();
    }
    let mut r = "### Arguments\n\n".to_owned();
    let mut items = String::new();
    let mut j: usize = 0;
    proof {
        assert(Seq::<char>::empty() + spec_positional_items(args@, 0) =~= spec_positional_items(
            args@,
            0,
        ));
    }
    while j < args.len()
        invariant
            j <= args.len(),
            forall|k: int| 0 <= k < args@.len() ==> arg_wf(#[trigger] args@[k]) || args@[k].hidden,
            items@ + spec_positional_items(args@, j as int) =~= spec_positional_items(args@, 0),
        decreases args.len() - j,
    {
        if args[j].positional {
            let item = write_arg_markdown(&args[j]);
            items.append(item.as_str());
        }
        proof {
            assert(items@ + spec_positional_items(args@, j + 1) =~= spec_positional_items(
                args@,
                0,
            ));
        }
        j += 1;
    }
    r.append(items.as_str());
    r.append("\n");
    proof {
        reveal_strlit("\n");
    }
    r
}

/// Render the options index of a command.
fn options_section(args: &Vec<ArgumentNode>) -> (r: String)
    requires
        forall|i: int| 0 <= i < args@.len() ==> arg_wf(#[trigger] args@[i]) || args@[i].hidden,
    ensures
        r@ == spec_options_section(args@),
{
    let mut found = false;
    let mut i: usize = 0;
    while i < args.len()
        invariant
            i <= args.len(),
            found <==> exists|k: int| 0 <= k < i && spec_is_option(#[trigger] args@[k]),
        decreases args.len() - i,
    {
        if !args[i].positional && !args[i].hidden {
            found = true;
        }
        i += 1;
    }
    if !found {
        return String::new();
    }
    let mut r = "### Options\n\n".to_owned();
    let mut items = String::new();
    let mut j: usize = 0;
    proof {
        assert(Seq::<char>::empty() + spec_option_items(args@, 0) =~= spec_option_items(args@, 0));
    }
    while j < args.len()
        invariant
            j <= args.len(),
            forall|k: int| 0 <= k < args@.len() ==> arg_wf(#[trigger] args@[k]) || args@[k].hidden,
            items@ + spec_option_items(args@, j as int) =~= spec_option_items(args@, 0),
        decreases args.len() - j,
    {
        if !args[j].positional && !args[j].hidden {
            let item = write_arg_markdown(&args[j]);
            items.append(item.as_str());
        }
        proof {
            assert(items@ + spec_option_items(args@, j + 1) =~= spec_option_items(args@, 0));
        }
        j += 1;
    }
    r.append(items.as_str());
    r.append("\n");
    proof {
        reveal_strlit("\n");
    }
    r
}

/// The full Markdown document of one command: front matter, description,
/// before-help, usage block, alias line, after-help, subcommand index,
/// positional-argument index, options index, in that order; each section
/// empty when its source data is absent.
pub open spec fn spec_command_markdown(parent: Seq<Seq<char>>, c: CommandNode) -> Seq<char> {
    let path = parent.push(spec_canonical_name(c));
    spec_front_matter(path) + spec_paragraph(spec_prefer(c.long_about, c.about)) + spec_paragraph(
        spec_prefer(c.before_long_help, c.before_help),
    ) + spec_usage_section(parent, c.usage@) + spec_cmd_alias_section(c.visible_aliases.deep_view())
        + spec_paragraph(spec_prefer(c.after_long_help, c.after_help)) + spec_subcommands_section(
        c.subcommands@,
        spec_join(path, "/"@),
    ) + spec_positionals_section(c.args@) + spec_options_section(c.args@)
}

/// The ancestor path extended with the command's own canonical name.
pub(crate) fn command_path(parent: &Vec<String>, command: &CommandNode) -> (r: Vec<String>)
    ensures
        r.deep_view() == parent.deep_view().push(spec_canonical_name(*command)),
{
    let mut r: Vec<String> = Vec::new();
    let mut i: usize = 0;
    while i < parent.len()
        invariant
            i <= parent.len(),
            r@ =~= parent@.take(i as int),
        decreases parent.len() - i,
    {
        r.push(parent[i].clone());
        i += 1;
    }
    proof {
        assert(r@ =~= parent@);
    }
    r.push(get_canonical_name(command));
    proof {
        assert(r.deep_view() =~= parent.deep_view().push(spec_canonical_name(*command)));
    }
    r
}

/// Render the full Markdown document for one command, given its ancestor
/// path.
pub fn write_command_markdown(parent_command_path: &Vec<String>, command: &CommandNode) -> (r:
    String)
    requires
        cmd_args_wf(*command),
    ensures
        r@ == spec_command_markdown(parent_command_path.deep_view(), *command),
{
    let path = command_path(parent_command_path, command);
    let joined = join_strings(&path, " ");
    let mut r = "---\ntitle: ".to_owned();
    r.append(joined.as_str());
    r.append("\nisCommand: true\n---\n\n");
    let description = preferred_paragraph(&command.long_about, &command.about);
    r.append(description.as_str());
    let before = preferred_paragraph(&command.before_long_help, &command.before_help);
    r.append(before.as_str());
    let usage = usage_section(parent_command_path, command.usage.as_str());
    r.append(usage.as_str());
    let aliases = cmd_alias_section(&command.visible_aliases);
    r.append(aliases.as_str());
    let after = preferred_paragraph(&command.after_long_help, &command.after_help);
    r.append(after.as_str());
    let path_str = join_strings(&path, "/");
    let subs = subcommands_section(&command.subcommands, path_str.as_str());
    r.append(subs.as_str());
    let positionals = positionals_section(&command.args);
    r.append(positionals.as_str());
    let options = options_section(&command.args);
    r.append(options.as_str());
    r
}

} // verus!
