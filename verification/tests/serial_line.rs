use goofy_ahh_os::io::PortWrite;
use goofy_ahh_os::serial::{serial_read, SerialWriter, BUFFER_SIZE, PORT};

fn driver() -> SerialWriter {
    SerialWriter::new(0xAE).unwrap()
}

/// Delivers `input` byte by byte as a polling loop would.
fn deliver(w: &mut SerialWriter, input: &[u8]) -> usize {
    w.begin_read();
    let mut taken = 0;
    for b in input {
        taken += 1;
        if !w.receive(*b) {
            break;
        }
    }
    taken
}

#[test]
fn init_program_is_the_documented_sequence() {
    let program = SerialWriter::init_sequence();
    let expected = [
        (0x3f9u16, 0x00u8),
        (0x3fb, 0x80),
        (0x3f8, 0x03),
        (0x3f9, 0x00),
        (0x3fb, 0x03),
        (0x3fa, 0xC7),
        (0x3fc, 0x0B),
        (0x3fc, 0x1E),
        (0x3f8, 0xAE),
    ];
    assert_eq!(program.len(), expected.len());
    for (w, (port, value)) in program.iter().zip(expected) {
        assert_eq!(*w, PortWrite { port, value });
    }
    assert_eq!(SerialWriter::normal_mode(), PortWrite { port: 0x3fc, value: 0x0F });
    assert_eq!(PORT, 0x3f8);
}

#[test]
fn self_test_accepts_the_test_byte_only() {
    assert!(SerialWriter::new(0xAE).is_some());
    for echo in [0x00u8, 0xAD, 0xAF, 0xFF, 0x0A] {
        assert!(SerialWriter::new(echo).is_none());
    }
}

#[test]
fn line_status_bits() {
    assert!(SerialWriter::serial_received(0x01));
    assert!(SerialWriter::serial_received(0x61));
    assert!(!SerialWriter::serial_received(0x60));
    assert!(SerialWriter::serial_sent(0x20));
    assert!(SerialWriter::serial_sent(0xFF));
    assert!(!SerialWriter::serial_sent(0xDF));
    assert!(!SerialWriter::serial_sent(0x00));
}

#[test]
fn write_goes_to_the_data_register() {
    let w = driver();
    assert_eq!(w.write(b'x'), PortWrite { port: 0x3f8, value: b'x' });
    assert_eq!(w.write(0), PortWrite { port: 0x3f8, value: 0 });
}

#[test]
fn text_is_sent_one_byte_per_character() {
    let w = driver();
    assert_eq!(w.write_str("ok\n"), vec![b'o', b'k', b'\n']);
    assert_eq!(w.write_str(""), Vec::<u8>::new());
    // the low eight bits of the code
    assert_eq!(w.write_str("\u{e9}\u{20ac}"), vec![0xE9, 0xAC]);
}

#[test]
fn read_returns_the_line_without_its_newline() {
    let mut w = driver();
    let taken = deliver(&mut w, b"hello\n");
    assert_eq!(taken, 6);
    assert_eq!(serial_read(&w), b"hello".to_vec());
    assert_eq!(w.line(), b"hello".to_vec());
    assert!(w.is_complete());
}

#[test]
fn read_stops_at_the_first_newline() {
    let mut w = driver();
    let taken = deliver(&mut w, b"one\ntwo\n");
    assert_eq!(taken, 4);
    assert_eq!(serial_read(&w), b"one".to_vec());
    // a read that is over takes nothing more
    assert!(!w.receive(b'x'));
    assert_eq!(serial_read(&w), b"one".to_vec());
}

#[test]
fn read_of_a_bare_newline_is_empty() {
    let mut w = driver();
    assert_eq!(deliver(&mut w, b"\n"), 1);
    assert_eq!(serial_read(&w), Vec::<u8>::new());
}

#[test]
fn read_before_any_byte_is_empty() {
    let w = driver();
    assert_eq!(serial_read(&w), Vec::<u8>::new());
    assert!(!w.is_complete());
}

#[test]
fn full_buffer_without_newline_returns_capacity_minus_one() {
    let input: Vec<u8> = (0..300u32).map(|i| b'a' + (i % 26) as u8).collect();
    let mut w = driver();
    let taken = deliver(&mut w, &input);
    assert_eq!(taken, BUFFER_SIZE);
    assert_eq!(BUFFER_SIZE, 256);
    let line = serial_read(&w);
    assert_eq!(line.len(), 255);
    assert_eq!(line, input[..255].to_vec());
    assert!(w.is_complete());
}

#[test]
fn newline_as_the_last_byte_that_fits() {
    let mut input: Vec<u8> = vec![b'z'; 255];
    input.push(b'\n');
    input.push(b'!');
    let mut w = driver();
    assert_eq!(deliver(&mut w, &input), 256);
    assert_eq!(serial_read(&w), vec![b'z'; 255]);
}

#[test]
fn unfinished_line_loses_its_last_byte() {
    let mut w = driver();
    assert_eq!(deliver(&mut w, b"abc"), 3);
    assert!(!w.is_complete());
    assert_eq!(serial_read(&w), b"ab".to_vec());
}

#[test]
fn batch_read_agrees_with_byte_by_byte_delivery() {
    let long: Vec<u8> = vec![b'q'; 400];
    let inputs: [&[u8]; 6] = [b"hello\n", b"one\ntwo\n", b"\n", b"", b"abc", &long];
    for input in inputs {
        let mut a = driver();
        let mut b = driver();
        let taken = a.read_str_to_buffer(input);
        deliver(&mut b, input);
        assert_eq!(serial_read(&a), serial_read(&b));
        assert!(taken <= input.len());
        assert!(taken <= 256);
    }
    let mut w = driver();
    assert_eq!(w.read_str_to_buffer(b"hello\nrest"), 6);
    assert_eq!(serial_read(&w), b"hello".to_vec());
    assert_eq!(w.read_str_to_buffer(&long), 256);
    assert_eq!(serial_read(&w).len(), 255);
}

#[test]
fn a_new_read_overwrites_the_old_one() {
    let mut w = driver();
    deliver(&mut w, b"first line\n");
    deliver(&mut w, b"2nd\n");
    assert_eq!(serial_read(&w), b"2nd".to_vec());
    w.begin_read();
    assert_eq!(serial_read(&w), Vec::<u8>::new());
}
