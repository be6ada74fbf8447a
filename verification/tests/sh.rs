use ssh_paste::sh::{remote_path_expr, sh_quote};

#[test]
fn quotes_plain_and_hostile_strings() {
    assert_eq!(sh_quote("abc"), "'abc'");
    assert_eq!(sh_quote("a'b"), r"'a'\''b'");
    assert_eq!(sh_quote("$HOME `x` \"y\""), "'$HOME `x` \"y\"'");
}

#[test]
fn expands_home_prefix_only() {
    assert_eq!(
        remote_path_expr("~/.cache/ssh-paste"),
        "\"$HOME\"/'.cache/ssh-paste'"
    );
    assert_eq!(remote_path_expr("~"), "\"$HOME\"");
    assert_eq!(remote_path_expr("/var/tmp/x"), "'/var/tmp/x'");
}

#[test]
fn quotes_empty_and_quote_only_strings() {
    assert_eq!(sh_quote(""), "''");
    assert_eq!(sh_quote("'"), r"''\'''");
    assert_eq!(sh_quote("a\nb"), "'a\nb'");
}

#[test]
fn tilde_prefixes_that_are_not_home() {
    assert_eq!(remote_path_expr("~/"), "\"$HOME\"/''");
    assert_eq!(remote_path_expr("~user/x"), "'~user/x'");
    assert_eq!(remote_path_expr("~/it's"), r#""$HOME"/'it'\''s'"#);
}
