use libmoss::client::language::MossLanguage;
use libmoss::client::wire::{
    as_moss_option, char_is_space, decimal, directive, display_name, file_line,
    handshake_accepted, query_line,
};

#[test]
fn language_tokens_are_lowercase_names() {
    assert_eq!(MossLanguage::C.as_str(), "c");
    assert_eq!(MossLanguage::CPP.as_str(), "cpp");
    assert_eq!(MossLanguage::JAVA.as_str(), "java");
    assert_eq!(MossLanguage::ML.as_str(), "ml");
    assert_eq!(MossLanguage::PASCAL.as_str(), "pascal");
    assert_eq!(MossLanguage::ADA.as_str(), "ada");
    assert_eq!(MossLanguage::LISP.as_str(), "lisp");
    assert_eq!(MossLanguage::SCHEME.as_str(), "scheme");
    assert_eq!(MossLanguage::HASKELL.as_str(), "haskell");
    assert_eq!(MossLanguage::FORTRAN.as_str(), "fortran");
    assert_eq!(MossLanguage::ASCII.as_str(), "ascii");
    assert_eq!(MossLanguage::VHDL.as_str(), "vhdl");
    assert_eq!(MossLanguage::PERL.as_str(), "perl");
    assert_eq!(MossLanguage::MATLAB.as_str(), "matlab");
    assert_eq!(MossLanguage::PYTHON.as_str(), "python");
    assert_eq!(MossLanguage::MIPS.as_str(), "mips");
    assert_eq!(MossLanguage::PROLOG.as_str(), "prolog");
    assert_eq!(MossLanguage::SPICE.as_str(), "spice");
    assert_eq!(MossLanguage::VB.as_str(), "vb");
    assert_eq!(MossLanguage::CSHARP.as_str(), "csharp");
    assert_eq!(MossLanguage::MODULA2.as_str(), "modula2");
    assert_eq!(MossLanguage::A8086.as_str(), "a8086");
    assert_eq!(MossLanguage::JAVASCRIPT.as_str(), "javascript");
    assert_eq!(MossLanguage::PLSQL.as_str(), "plsql");
}

#[test]
fn default_language_is_c() {
    assert_eq!(MossLanguage::default(), MossLanguage::C);
}

#[test]
fn flags_are_one_and_zero() {
    assert_eq!(as_moss_option(true), "1");
    assert_eq!(as_moss_option(false), "0");
}

#[test]
fn decimal_of_small_and_large_numbers() {
    assert_eq!(decimal(0), "0");
    assert_eq!(decimal(7), "7");
    assert_eq!(decimal(10), "10");
    assert_eq!(decimal(250), "250");
    assert_eq!(decimal(1009), "1009");
    assert_eq!(decimal(usize::MAX), usize::MAX.to_string());
}

#[test]
fn decimal_agrees_with_std_on_a_range() {
    let mut n: usize = 0;
    while n < 3000 {
        assert_eq!(decimal(n), n.to_string());
        n += 7;
    }
}

#[test]
fn display_name_replaces_every_space() {
    assert_eq!(display_name("my file.c"), "my_file.c");
    assert_eq!(display_name(" a  b "), "_a__b_");
    assert_eq!(display_name("plain.c"), "plain.c");
    assert_eq!(display_name(""), "");
}

#[test]
fn display_name_keeps_other_characters() {
    assert_eq!(display_name("tab\there_ok-é.c"), "tab\there_ok-é.c");
    assert_eq!(display_name("größe 1.py"), "größe_1.py");
}

#[test]
fn display_name_never_holds_a_space() {
    let names = ["a b", "  ", "x", "a b c d e", "né e"];
    for name in names {
        let shown = display_name(name);
        assert!(!shown.contains(' '));
        assert_eq!(shown.chars().count(), name.chars().count());
    }
}

#[test]
fn directive_is_keyword_space_value_newline() {
    assert_eq!(directive("moss", "123456789"), "moss 123456789\n");
    assert_eq!(directive("X", "0"), "X 0\n");
}

#[test]
fn file_line_has_index_language_length_and_name() {
    assert_eq!(file_line(0, MossLanguage::C, 10, "template.c"), "file 0 c 10 template.c\n");
    assert_eq!(file_line(1, MossLanguage::PYTHON, 5, "a b.py"), "file 1 python 5 a_b.py\n");
    assert_eq!(file_line(12, MossLanguage::CPP, 0, "empty.cpp"), "file 12 cpp 0 empty.cpp\n");
}

#[test]
fn query_line_carries_the_comment_verbatim() {
    assert_eq!(query_line("homework 1"), "query 0 homework 1\n");
    assert_eq!(query_line("\"quoted\""), "query 0 \"quoted\"\n");
    assert_eq!(query_line(""), "query 0 \n");
}

#[test]
fn white_space_is_what_unicode_says() {
    for c in [' ', '\t', '\n', '\r', '\u{b}', '\u{c}', '\u{85}', '\u{a0}', '\u{2003}', '\u{3000}'] {
        assert!(char_is_space(c));
    }
    for c in ['a', '_', '0', '\u{200b}', '\u{8}', '\u{e}'] {
        assert!(!char_is_space(c));
    }
}

#[test]
fn white_space_agrees_with_std() {
    let mut u: u32 = 0;
    while u < 0x3100 {
        if let Some(c) = char::from_u32(u) {
            assert_eq!(char_is_space(c), c.is_whitespace());
        }
        u += 1;
    }
}

#[test]
fn handshake_accepts_yes_in_any_case_and_padding() {
    assert!(handshake_accepted("yes"));
    assert!(handshake_accepted("Yes"));
    assert!(handshake_accepted("YES "));
    assert!(handshake_accepted("yes\n"));
    assert!(handshake_accepted("  \tyEs\r\n   "));
}

#[test]
fn handshake_rejects_everything_else() {
    assert!(!handshake_accepted("no"));
    assert!(!handshake_accepted(""));
    assert!(!handshake_accepted("maybe"));
    assert!(!handshake_accepted("   "));
    assert!(!handshake_accepted("ye"));
    assert!(!handshake_accepted("yess"));
    assert!(!handshake_accepted("yes no"));
    assert!(!handshake_accepted("y es"));
    assert!(!handshake_accepted("oh yes"));
}

#[test]
fn handshake_agrees_with_trim_and_case_folding() {
    let replies = ["yes", " YeS\n", "no", "", "yes!", "\u{a0}yes\u{3000}", "ÿes", "yés"];
    for reply in replies {
        assert_eq!(handshake_accepted(reply), reply.trim().eq_ignore_ascii_case("yes"));
    }
}
