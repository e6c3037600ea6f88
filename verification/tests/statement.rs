//! Which statements upload a file.

use snowflake_api::statement::is_put_statement;

#[test]
fn put_is_recognised_in_any_case() {
    assert!(is_put_statement("put file:///tmp/a.csv @stage"));
    assert!(is_put_statement("PUT file:///tmp/a.csv @stage"));
    assert!(is_put_statement("pUt\tfile:///tmp/a.csv @stage"));
    assert!(is_put_statement("put\n"));
    assert!(is_put_statement("put\u{3000}x"));
}

#[test]
fn put_is_recognised_behind_white_space() {
    assert!(is_put_statement(" put x"));
    assert!(is_put_statement("  PUT file:///tmp/x.csv @stg"));
    assert!(is_put_statement("\n\t\r\n put x"));
    assert!(is_put_statement("\u{a0}\u{3000}put x"));
}

#[test]
fn put_is_recognised_behind_comments() {
    assert!(is_put_statement("/* hint */put x"));
    assert!(is_put_statement("/* hint */ \r\n PUT x"));
    assert!(is_put_statement("/**//* two */\tput x"));
    assert!(is_put_statement("/*/**/put x"));
    assert!(is_put_statement("/***/put x"));
    assert!(is_put_statement("/* a * b / c **/ put x"));
    assert!(is_put_statement(" /* a */ put x"));
    assert!(is_put_statement("/* two\nlines */ put x"));
    assert!(is_put_statement("-- hint\nput x"));
    assert!(is_put_statement(" --\n-- put\r\n /* c */ PUT x"));
}

#[test]
fn other_statements_are_no_uploads() {
    assert!(!is_put_statement(""));
    assert!(!is_put_statement("  "));
    assert!(!is_put_statement("put"));
    assert!(!is_put_statement("putx y"));
    assert!(!is_put_statement("select 1"));
    assert!(!is_put_statement("  select 1"));
    assert!(!is_put_statement("select put from t"));
    assert!(!is_put_statement("- put x"));
    assert!(!is_put_statement("/ put x"));
}

#[test]
fn a_comment_ends_at_its_first_end() {
    assert!(!is_put_statement("/* open put x"));
    assert!(!is_put_statement("/*/put x"));
    assert!(!is_put_statement("/*/ put x */"));
    assert!(!is_put_statement("/* a */ select /* b */"));
    assert!(!is_put_statement("/* a */ select 1 /* b */ put x"));
    assert!(!is_put_statement("/* a */ */ put x"));
    assert!(!is_put_statement("-- put x"));
    assert!(!is_put_statement("-- a\nselect 1 -- b\nput x"));
}

#[test]
fn what_comes_in_front_makes_no_difference() {
    for sql in ["put x", "PUT\tx", "select 1", "putx", ""] {
        for blank in [" ", "\n", "\u{2003}", "/* put x */", "/**/", "-- put x\n", "--\n"] {
            let text = format!("{blank}{sql}");
            assert_eq!(is_put_statement(&text), is_put_statement(sql), "{text:?}");
        }
    }
}

#[test]
fn case_makes_no_difference() {
    for sql in ["/* Put */ pUT File", "PuT x", "PuTx", "/* Sel */ SELECT 1"] {
        assert_eq!(is_put_statement(&sql.to_lowercase()), is_put_statement(sql), "{sql}");
        assert_eq!(is_put_statement(&sql.to_uppercase()), is_put_statement(sql), "{sql}");
    }
}
