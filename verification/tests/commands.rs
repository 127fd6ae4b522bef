use goofy_ahh_os::command::{parse, Command, NUMBER_X, NUMBER_Y};

#[test]
fn print_command_names_the_text() {
    assert_eq!(parse(b"print hello"), Command::Print { text_at: 6 });
    assert_eq!(&b"print hello"[6..], b"hello");
    assert_eq!(parse(b"print "), Command::Print { text_at: 6 });
    assert_eq!(parse(b"print  two spaces"), Command::Print { text_at: 6 });
}

#[test]
fn empty_line_asks_for_the_numbers() {
    assert_eq!(parse(b""), Command::Numbers);
    assert_eq!(NUMBER_X, 239423889);
    assert_eq!(NUMBER_Y, 123456678);
}

#[test]
fn other_lines_are_unknown() {
    for line in [
        &b"print"[..],
        b"prin",
        b"p",
        b" ",
        b"Print x",
        b"printx",
        b"print\tx",
        b" print x",
        b"help",
        b"\n",
    ] {
        assert_eq!(parse(line), Command::Unknown);
    }
}
