use clap_markdown::model::ArgumentNode;
use clap_markdown::model::CommandNode;
use clap_markdown::generate_command_to;
use clap_markdown::generate_to;

fn command(name: &str) -> CommandNode {
    CommandNode {
        name: String::from(name),
        bin_name: None,
        display_name: None,
        about: None,
        long_about: None,
        before_help: None,
        before_long_help: None,
        after_help: None,
        after_long_help: None,
        usage: String::from(name),
        visible_aliases: Vec::new(),
        hidden: false,
        args: Vec::new(),
        subcommands: Vec::new(),
    }
}

fn argument(id: &str) -> ArgumentNode {
    ArgumentNode {
        id: String::from(id),
        positional: false,
        short: None,
        long: None,
        value_names: Vec::new(),
        takes_values: false,
        set_true: false,
        visible_aliases: Vec::new(),
        hidden: false,
        default_values: Vec::new(),
        possible_values: Vec::new(),
        help: None,
        long_help: None,
    }
}

fn paths(pairs: &[(String, String)]) -> Vec<String> {
    pairs.iter().map(|p| p.0.clone()).collect()
}

#[test]
fn test_example_complex_app() {
    let mut root = command("complex-app");
    root.visible_aliases = vec![String::from("ca")];
    root.usage = String::from("Usage: complex-app [OPTIONS] [NAME] [COMMAND]");
    let mut name = argument("name");
    name.positional = true;
    name.takes_values = true;
    name.help = Some(String::from("Optional name to operate on"));
    name.long_help = Some(String::from(
        "Optional name to operate on\n\nLonger description",
    ));
    let mut config = argument("config");
    config.short = Some('c');
    config.long = Some(String::from("config"));
    config.takes_values = true;
    config.value_names = vec![String::from("FILE")];
    config.visible_aliases = vec![String::from("configuration")];
    config.help = Some(String::from("Sets a custom config file"));
    let mut secret = argument("secret_arg");
    secret.short = Some('s');
    secret.long = Some(String::from("secret-arg"));
    secret.set_true = true;
    secret.hidden = true;
    root.args = vec![name, config, secret];
    let mut test = command("test");
    test.about = Some(String::from("does testing things"));
    test.visible_aliases = vec![String::from("tester")];
    test.usage = String::from("Usage: test [OPTIONS]");
    let mut hidden_opts = command("only-hidden-options");
    hidden_opts.about = Some(String::from(
        "Demo that `Options` is not printed if all options are hidden",
    ));
    hidden_opts.usage = String::from("Usage: only-hidden-options [OPTIONS]");
    let mut hidden_arg = argument("secret");
    hidden_arg.short = Some('s');
    hidden_arg.long = Some(String::from("secret"));
    hidden_arg.set_true = true;
    hidden_arg.hidden = true;
    hidden_opts.args = vec![hidden_arg];
    root.subcommands = vec![test, hidden_opts];

    let generated = generate_to(&root, "tests/complex-app");
    assert_eq!(
        paths(&generated),
        vec![
            String::from("tests/complex-app/index.mdx"),
            String::from("tests/complex-app/complex-app/test.mdx"),
            String::from("tests/complex-app/complex-app/only-hidden-options.mdx"),
        ]
    );
    // The command whose only non-positional argument is hidden emits no
    // options heading at all.
    assert!(!generated[2].1.contains("### Options"));
}

#[test]
fn test_title_behavior_for_name_and_display_name_app() {
    // First check how clap itself weighs the name, bin-name and
    // display-name properties when rendering help.
    let mut clap_app = clap::Command::new("my-program-name")
        // Note: intentionally no custom invocation name.
        .display_name("my-program-display-name")
        .version("1.2.3")
        .about("This program does things.")
        .arg(clap::Arg::new("foo").short('f'));
    let () = clap_app.build();
    let help = clap_app.render_long_help().to_string();
    assert!(help.starts_with("This program does things.\n\nUsage: my-program-name [OPTIONS]\n"));
    assert!(help.contains("-f <foo>"));
    assert!(help.contains("-V, --version"));

    // Then check how the generator weighs the same fields.
    let mut app = command("my-program-name");
    app.display_name = Some(String::from("my-program-display-name"));
    app.about = Some(String::from("This program does things."));
    app.usage = String::from("Usage: my-program-name [OPTIONS]");
    let mut foo = argument("foo");
    foo.short = Some('f');
    foo.takes_values = true;
    app.args = vec![foo];

    let generated = generate_to(&app, "tests");
    assert_eq!(
        paths(&generated),
        vec![String::from("tests/my-program-display-name.mdx")]
    );
}

#[test]
fn test_hidden_command_subtree_never_visited() {
    let mut root = command("root");
    let mut hidden = command("hidden");
    hidden.hidden = true;
    // A visible child below a hidden command still yields no file.
    hidden.subcommands = vec![command("visible-below-hidden")];
    let mut shown = command("shown");
    shown.subcommands = vec![command("leaf")];
    root.subcommands = vec![hidden, shown];
    let generated = generate_to(&root, "out");
    assert_eq!(
        paths(&generated),
        vec![
            String::from("out/index.mdx"),
            String::from("out/root/shown.mdx"),
            String::from("out/root/shown/leaf.mdx"),
        ]
    );
}

#[test]
fn test_generate_into_empty_and_slash_terminated_directories() {
    let root = command("app");
    let generated = generate_to(&root, "");
    assert_eq!(paths(&generated), vec![String::from("index.mdx")]);
    let generated = generate_to(&root, "docs/");
    assert_eq!(paths(&generated), vec![String::from("docs/index.mdx")]);
}

#[test]
fn test_generate_command_to_pairs_path_with_document() {
    let mut c = command("tool");
    c.about = Some(String::from("A tool."));
    let parent = vec![String::from("app")];
    let (path, doc) = generate_command_to(&c, &parent, String::from("app/tool.mdx"));
    assert_eq!(path, "app/tool.mdx");
    assert!(doc.starts_with("---\ntitle: app tool\n"));
    assert!(doc.contains("A tool.\n\n"));
}

#[test]
fn test_sibling_name_collision_paths_kept_as_is() {
    let mut root = command("root");
    let twin_a = command("twin");
    let twin_b = command("twin");
    root.subcommands = vec![twin_a, twin_b];
    let generated = generate_to(&root, "out");
    assert_eq!(
        paths(&generated),
        vec![
            String::from("out/index.mdx"),
            String::from("out/root/twin.mdx"),
            String::from("out/root/twin.mdx"),
        ]
    );
}
