use ambry::registry::startup_commands;
use ambry::statements::split_statements;

#[test]
fn splits_on_semicolon_newline_and_trailing() {
    assert_eq!(split_statements("SELECT 1;\nSELECT 2;"), vec!["SELECT 1", "SELECT 2"]);
    assert_eq!(split_statements("SELECT 1;  \n  SELECT 2"), vec!["SELECT 1", "SELECT 2"]);
}

#[test]
fn does_not_split_mid_line() {
    assert_eq!(split_statements("SELECT 1; SELECT 2"), vec!["SELECT 1; SELECT 2"]);
}

#[test]
fn does_not_protect_string_literals() {
    assert_eq!(split_statements("SELECT ';\n' as x"), vec!["SELECT '", "' as x"]);
}

#[test]
fn drops_empty_pieces() {
    assert_eq!(split_statements(";\n;\n"), Vec::<String>::new());
    assert_eq!(split_statements(""), Vec::<String>::new());
    assert_eq!(split_statements("a;  \n b;  "), vec!["a", "b"]);
}

#[test]
fn statements_are_trimmed_and_non_empty() {
    for piece in split_statements("  a ;\n\n ;\n\t b\t;\r\n c  ") {
        assert!(!piece.is_empty());
        assert_eq!(piece.trim(), piece);
    }
}

#[test]
fn startup_commands_are_trimmed_non_blank_lines() {
    assert_eq!(
        startup_commands("SET a = 1\n\n   \r\n  SET b = 2  \r\n"),
        vec!["SET a = 1", "SET b = 2"]
    );
    assert_eq!(startup_commands(""), Vec::<String>::new());
}
