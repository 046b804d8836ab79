use clap_markdown::model::ArgumentNode;
use clap_markdown::model::CommandNode;
use clap_markdown::model::PossibleValueNode;
use clap_markdown::get_canonical_name;
use clap_markdown::write_arg_markdown;
use clap_markdown::write_command_markdown;

fn command(name: &str) -> CommandNode {
    CommandNode {
        name: String::from(name),
        bin_name: None,
        display_name: None,
        about: None,
        long_about: None,
        before_help: None,
        before_long_help: None,
        after_help: None,
        after_long_help: None,
        usage: String::from(name),
        visible_aliases: Vec::new(),
        hidden: false,
        args: Vec::new(),
        subcommands: Vec::new(),
    }
}

fn argument(id: &str) -> ArgumentNode {
    ArgumentNode {
        id: String::from(id),
        positional: false,
        short: None,
        long: None,
        value_names: Vec::new(),
        takes_values: false,
        set_true: false,
        visible_aliases: Vec::new(),
        hidden: false,
        default_values: Vec::new(),
        possible_values: Vec::new(),
        help: None,
        long_help: None,
    }
}

#[test]
fn test_canonical_name_resolution_order() {
    let mut c = command("raw");
    assert_eq!(get_canonical_name(&c), "raw");
    c.bin_name = Some(String::from("bin"));
    assert_eq!(get_canonical_name(&c), "bin");
    c.display_name = Some(String::from("display"));
    assert_eq!(get_canonical_name(&c), "display");
    c.bin_name = None;
    assert_eq!(get_canonical_name(&c), "display");
}

#[test]
fn test_title_is_space_joined_path_of_canonical_names() {
    let mut c = command("raw-name");
    c.display_name = Some(String::from("shown"));
    let parent = vec![String::from("root"), String::from("mid")];
    let doc = write_command_markdown(&parent, &c);
    assert!(doc.starts_with("---\ntitle: root mid shown\nisCommand: true\n---\n\n"));
}

#[test]
fn test_full_document_layout() {
    let mut c = command("demo");
    c.about = Some(String::from("Does things."));
    c.usage = String::from("Usage: demo [OPTIONS]");
    c.visible_aliases = vec![String::from("d")];
    let mut sub = command("sub");
    sub.about = Some(String::from("A sub"));
    c.subcommands = vec![sub];
    let mut flag = argument("flag");
    flag.short = Some('f');
    flag.set_true = true;
    flag.help = Some(String::from("A flag"));
    c.args = vec![flag];
    let doc = write_command_markdown(&Vec::new(), &c);
    let mut expected = String::from("---\ntitle: demo\nisCommand: true\n---\n\n");
    expected.push_str("Does things.\n\n");
    expected.push_str("```shell title=\"Usage\"\ndemo [OPTIONS]\n```\n\n");
    expected.push_str("**Command Alias:** `d`\n\n");
    expected.push_str("### Subcommands\n\n- [`sub`](./demo/sub) — A sub\n\n");
    expected.push_str("### Options\n\n- `-f` — A flag\n\n");
    assert_eq!(doc, expected);
}

#[test]
fn test_long_about_preferred_over_about() {
    let mut c = command("p");
    c.about = Some(String::from("short"));
    c.long_about = Some(String::from("long"));
    let doc = write_command_markdown(&Vec::new(), &c);
    assert!(doc.contains("long\n\n"));
    assert!(!doc.contains("short"));
}

#[test]
fn test_usage_block_strips_token_and_prefixes_ancestors() {
    let mut c = command("run");
    c.usage = String::from("Usage: run [OPTIONS]");
    let parent = vec![String::from("app"), String::from("tool")];
    let doc = write_command_markdown(&parent, &c);
    assert!(doc.contains("```shell title=\"Usage\"\napp tool run [OPTIONS]\n```\n\n"));
}

#[test]
fn test_usage_block_without_token_kept_whole() {
    let mut c = command("run");
    c.usage = String::from("run [OPTIONS]");
    let doc = write_command_markdown(&Vec::new(), &c);
    assert!(doc.contains("```shell title=\"Usage\"\nrun [OPTIONS]\n```\n\n"));
}

#[test]
fn test_command_aliases_plural_label() {
    let mut c = command("v");
    c.visible_aliases = vec![String::from("vv"), String::from("vvv")];
    let doc = write_command_markdown(&Vec::new(), &c);
    assert!(doc.contains("**Command Aliases:** `vv`, `vvv`\n\n"));
}

#[test]
fn test_hidden_subcommand_not_listed_but_heading_stays() {
    let mut c = command("p");
    let mut shown = command("shown");
    shown.about = Some(String::from("ok"));
    let mut secret = command("secret");
    secret.hidden = true;
    c.subcommands = vec![shown, secret];
    let doc = write_command_markdown(&Vec::new(), &c);
    assert!(doc.contains("### Subcommands\n"));
    assert!(doc.contains("- [`shown`](./p/shown) — ok\n"));
    assert!(!doc.contains("secret"));
}

#[test]
fn test_all_hidden_subcommands_keep_heading() {
    let mut c = command("p");
    let mut secret = command("secret");
    secret.hidden = true;
    c.subcommands = vec![secret];
    let doc = write_command_markdown(&Vec::new(), &c);
    assert!(doc.contains("### Subcommands\n\n\n"));
    assert!(!doc.contains("secret"));
}

#[test]
fn test_before_and_after_help_prefer_long_forms() {
    let mut c = command("p");
    c.before_help = Some(String::from("before-short"));
    c.before_long_help = Some(String::from("before-long"));
    c.after_help = Some(String::from("after-short"));
    let doc = write_command_markdown(&Vec::new(), &c);
    assert!(doc.contains("before-long\n\n"));
    assert!(!doc.contains("before-short"));
    assert!(doc.contains("after-short\n\n"));
}

#[test]
fn test_options_heading_omitted_when_all_options_hidden() {
    let mut c = command("p");
    let mut secret = argument("secret");
    secret.short = Some('s');
    secret.hidden = true;
    c.args = vec![secret];
    let doc = write_command_markdown(&Vec::new(), &c);
    assert!(!doc.contains("### Options"));
    assert!(!doc.contains("secret"));
}

#[test]
fn test_positionals_get_arguments_heading() {
    let mut c = command("p");
    let mut name = argument("name");
    name.positional = true;
    name.takes_values = true;
    name.help = Some(String::from("The name"));
    c.args = vec![name];
    let doc = write_command_markdown(&Vec::new(), &c);
    assert!(doc.contains("### Arguments\n\n- `<NAME>` — The name\n\n"));
    assert!(!doc.contains("### Options"));
}

#[test]
fn test_arg_signature_short_and_long_with_value() {
    let mut a = argument("config");
    a.short = Some('c');
    a.long = Some(String::from("config"));
    a.takes_values = true;
    a.value_names = vec![String::from("FILE")];
    assert_eq!(write_arg_markdown(&a), "- `-c`, `--config <FILE>`\n");
}

#[test]
fn test_arg_signature_short_and_long_without_value() {
    let mut a = argument("verbose");
    a.short = Some('v');
    a.long = Some(String::from("verbose"));
    assert_eq!(write_arg_markdown(&a), "- `-v`, `--verbose`\n");
}

#[test]
fn test_arg_signature_short_only() {
    let mut a = argument("debug");
    a.short = Some('d');
    assert_eq!(write_arg_markdown(&a), "- `-d`\n");
    a.takes_values = true;
    assert_eq!(write_arg_markdown(&a), "- `-d <DEBUG>`\n");
}

#[test]
fn test_arg_signature_long_only() {
    let mut a = argument("target");
    a.long = Some(String::from("target"));
    assert_eq!(write_arg_markdown(&a), "- `--target`\n");
    a.takes_values = true;
    assert_eq!(write_arg_markdown(&a), "- `--target <TARGET>`\n");
}

#[test]
fn test_positional_value_name_falls_back_to_uppercased_id() {
    let mut a = argument("file-name");
    a.positional = true;
    a.takes_values = true;
    assert_eq!(write_arg_markdown(&a), "- `<FILE-NAME>`\n");
}

#[test]
fn test_arg_alias_singular_and_plural() {
    let mut a = argument("config");
    a.long = Some(String::from("config"));
    a.visible_aliases = vec![String::from("configuration")];
    assert_eq!(
        write_arg_markdown(&a),
        "- `--config` [alias: `configuration`]\n"
    );
    a.visible_aliases = vec![String::from("c1"), String::from("c2")];
    assert_eq!(
        write_arg_markdown(&a),
        "- `--config` [aliases: `c1`, `c2`]\n"
    );
}

#[test]
fn test_arg_long_help_is_indented() {
    let mut a = argument("debug");
    a.short = Some('d');
    a.long_help = Some(String::from("Turn debugging on\n\nRepeat for more."));
    assert_eq!(
        write_arg_markdown(&a),
        "- `-d` — Turn debugging on\n\n  Repeat for more.\n"
    );
}

#[test]
fn test_arg_default_value_singular_and_plural() {
    let mut a = argument("target");
    a.long = Some(String::from("target"));
    a.takes_values = true;
    a.default_values = vec![String::from("local")];
    assert_eq!(
        write_arg_markdown(&a),
        "- `--target <TARGET>`\n\n  Default value: `local`\n"
    );
    a.default_values = vec![String::from("a"), String::from("b")];
    assert_eq!(
        write_arg_markdown(&a),
        "- `--target <TARGET>`\n\n  Default values: `a`, `b`\n"
    );
}

#[test]
fn test_possible_values_inline_when_no_help() {
    let mut a = argument("target");
    a.long = Some(String::from("target"));
    a.takes_values = true;
    a.possible_values = vec![
        PossibleValueNode { name: String::from("local"), help: None, hidden: false },
        PossibleValueNode { name: String::from("remote"), help: None, hidden: false },
    ];
    assert_eq!(
        write_arg_markdown(&a),
        "- `--target <TARGET>`\n\n  Possible values: `local`, `remote`\n\n"
    );
}

#[test]
fn test_possible_values_bulleted_when_any_has_help() {
    let mut a = argument("target");
    a.long = Some(String::from("target"));
    a.takes_values = true;
    a.possible_values = vec![
        PossibleValueNode {
            name: String::from("local"),
            help: Some(String::from("Do the operation locally")),
            hidden: false,
        },
        PossibleValueNode { name: String::from("remote"), help: None, hidden: false },
    ];
    assert_eq!(
        write_arg_markdown(&a),
        "- `--target <TARGET>`\n\n  Possible values:\n\n  - `local`:\n    Do the operation locally\n  - `remote`\n\n"
    );
}

#[test]
fn test_hidden_possible_value_never_rendered() {
    let mut a = argument("target");
    a.long = Some(String::from("target"));
    a.takes_values = true;
    a.possible_values = vec![
        PossibleValueNode { name: String::from("local"), help: None, hidden: false },
        PossibleValueNode { name: String::from("secret"), help: None, hidden: true },
    ];
    assert_eq!(
        write_arg_markdown(&a),
        "- `--target <TARGET>`\n\n  Possible values: `local`\n\n"
    );
}

#[test]
fn test_possible_values_suppressed_for_set_true_action_only() {
    let mut a = argument("flag");
    a.long = Some(String::from("flag"));
    a.set_true = true;
    a.possible_values = vec![PossibleValueNode {
        name: String::from("true"),
        help: None,
        hidden: false,
    }];
    assert_eq!(write_arg_markdown(&a), "- `--flag`\n");
    // A counting action does not take a value either, yet keeps them.
    a.set_true = false;
    assert_eq!(
        write_arg_markdown(&a),
        "- `--flag`\n\n  Possible values: `true`\n\n"
    );
}
