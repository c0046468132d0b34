use greeter::console::{greet_line, greet_name};

#[test]
fn a_name_is_greeted() {
    assert_eq!(greet_name("Ada"), "Hello, Ada! Welcome to the generated rust application! 🎉");
}

#[test]
fn no_name_is_greeted_anonymously() {
    assert_eq!(
        greet_name(""),
        "Hello, anonymous user! Welcome to the generated rust application! 🎉"
    );
}

#[test]
fn greet_name_does_not_trim() {
    assert_eq!(greet_name(" "), "Hello,  ! Welcome to the generated rust application! 🎉");
}

#[test]
fn a_typed_line_is_trimmed_first() {
    assert_eq!(greet_line("Ada\n"), "Hello, Ada! Welcome to the generated rust application! 🎉");
    assert_eq!(
        greet_line("  \tAda Lovelace \r\n"),
        "Hello, Ada Lovelace! Welcome to the generated rust application! 🎉"
    );
    assert_eq!(greet_line("Zoë"), "Hello, Zoë! Welcome to the generated rust application! 🎉");
}

#[test]
fn a_blank_line_is_greeted_anonymously() {
    for line in ["", "\n", "\r\n", "   ", " \t \n", "\u{a0}\u{2003}\n"] {
        assert_eq!(
            greet_line(line),
            "Hello, anonymous user! Welcome to the generated rust application! 🎉",
            "{:?}",
            line
        );
    }
}
