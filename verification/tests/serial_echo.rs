use bots_firmware::serial_echo::{advance_write_offset, uppercase_echo};

#[test]
fn echo_uppercases_letters_only() {
    assert_eq!(uppercase_echo(b"Hello, world! az{`@["), b"HELLO, WORLD! AZ{`@[".to_vec());
    assert_eq!(uppercase_echo(&[]), Vec::<u8>::new());
    assert_eq!(uppercase_echo(&[0x61, 0x7a, 0x60, 0x7b, 0xe1]), vec![0x41, 0x5a, 0x60, 0x7b, 0xe1]);
}

#[test]
fn echo_twice_is_echo_once() {
    let once = uppercase_echo(b"mixed Case 123");
    assert_eq!(uppercase_echo(&once), once);
}

#[test]
fn write_offset_progress() {
    assert_eq!(advance_write_offset(0, 10, Some(4)), 4);
    assert_eq!(advance_write_offset(4, 10, Some(6)), 10);
    assert_eq!(advance_write_offset(4, 10, Some(0)), 4);
    assert_eq!(advance_write_offset(4, 10, None), 4);
}
