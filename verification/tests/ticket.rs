use yanu::ticket::{get_title_key, keystore_lines, TicketError};

fn ticket_with(id: [u8; 16], key: [u8; 16], len: usize) -> Vec<u8> {
    let mut t = vec![0u8; len];
    t[0x2a0..0x2b0].copy_from_slice(&id);
    t[0x180..0x190].copy_from_slice(&key);
    t
}

#[test]
fn extracts_fields_at_fixed_offsets() {
    let id = [
        0x01, 0x00, 0xab, 0xcd, 0xef, 0x12, 0x34, 0x56, 0x00, 0x11, 0x22, 0x33, 0x44, 0x55, 0x66,
        0x77,
    ];
    let key = [
        0xde, 0xad, 0xbe, 0xef, 0x00, 0x01, 0x02, 0x03, 0x04, 0x05, 0x06, 0x07, 0x08, 0x09, 0x0a,
        0x0b,
    ];
    let ticket = ticket_with(id, key, 0x2b0);
    let tk = get_title_key(&ticket).unwrap();
    assert_eq!(tk.title_id().as_slice(), &id);
    assert_eq!(tk.key().as_slice(), &key);
}

#[test]
fn larger_ticket_reads_same_fields() {
    let id = [7u8; 16];
    let key = [9u8; 16];
    let ticket = ticket_with(id, key, 0x400);
    let tk = get_title_key(&ticket).unwrap();
    assert_eq!(tk.title_id().as_slice(), &id);
    assert_eq!(tk.key().as_slice(), &key);
}

#[test]
fn one_byte_short_is_rejected() {
    let ticket = vec![0u8; 0x2af];
    match get_title_key(&ticket) {
        Err(TicketError::TooShort { len }) => assert_eq!(len, 0x2af),
        _ => panic!("a truncated ticket must be rejected"),
    }
}

#[test]
fn empty_ticket_is_rejected() {
    let ticket: Vec<u8> = Vec::new();
    match get_title_key(&ticket) {
        Err(TicketError::TooShort { len }) => assert_eq!(len, 0),
        _ => panic!("an empty ticket must be rejected"),
    }
}

#[test]
fn render_is_lowercase_hex_pair() {
    let id = [
        0x01, 0x00, 0xab, 0xcd, 0xef, 0x12, 0x34, 0x56, 0x00, 0x00, 0x00, 0x00, 0x00, 0x00, 0x00,
        0x00,
    ];
    let key = [0xffu8; 16];
    let ticket = ticket_with(id, key, 0x2b0);
    let tk = get_title_key(&ticket).unwrap();
    assert_eq!(
        tk.render(),
        "0100abcdef1234560000000000000000=ffffffffffffffffffffffffffffffff"
    );
}

#[test]
fn keystore_lines_skip_missing_keys() {
    let id = [0u8; 16];
    let key = [1u8; 16];
    let tk = get_title_key(&ticket_with(id, key, 0x2b0)).unwrap();
    let line = "00000000000000000000000000000000=01010101010101010101010101010101\n";

    assert_eq!(keystore_lines(&None, &None), "");
    assert_eq!(keystore_lines(&Some(tk.clone()), &None), line);
    assert_eq!(keystore_lines(&None, &Some(tk.clone())), line);
    assert_eq!(
        keystore_lines(&Some(tk.clone()), &Some(tk)),
        format!("{}{}", line, line)
    );
}
