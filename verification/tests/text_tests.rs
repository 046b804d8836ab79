use clap_markdown::get_alias_string;
use clap_markdown::indent;
use clap_markdown::pluralize;

#[test]
fn test_indent() {
    assert_eq!(
        &indent("Header\n\nMore info", "___", "~~~~"),
        "___Header\n\n~~~~More info\n"
    );
    assert_eq!(
        &indent("Header\n\nMore info\n", "___", "~~~~"),
        &indent("Header\n\nMore info", "___", "~~~~"),
    );
    assert_eq!(&indent("", "___", "~~~~"), "\n");
    assert_eq!(&indent("\n", "___", "~~~~"), "\n");
}

#[test]
fn test_indent_blank_lines_keep_no_lead() {
    assert_eq!(&indent("a\n\nb\nc", ">", "-"), ">a\n\n-b\n-c\n");
}

#[test]
fn test_indent_carriage_returns_are_stripped_before_newline() {
    assert_eq!(&indent("a\r\nb", ">", "-"), ">a\n-b\n");
}

#[test]
fn test_pluralize_boundary() {
    assert_eq!(pluralize(0, "one", "many"), "many");
    assert_eq!(pluralize(1, "one", "many"), "one");
    assert_eq!(pluralize(2, "one", "many"), "many");
    assert_eq!(pluralize(3, "one", "many"), "many");
}

#[test]
fn test_get_alias_string_empty() {
    let aliases: Vec<String> = Vec::new();
    assert_eq!(get_alias_string(&aliases), None);
}

#[test]
fn test_get_alias_string_quotes_and_joins() {
    let aliases = vec![String::from("ca")];
    assert_eq!(get_alias_string(&aliases), Some(String::from("`ca`")));
    let aliases = vec![String::from("vv"), String::from("vvv")];
    assert_eq!(get_alias_string(&aliases), Some(String::from("`vv`, `vvv`")));
}
