//! The switch register framing: command words, request frames, responses.

use stm32h7_eth::ksz8463::{
    enabled_from, parse_read_response, parse_write_response, read_request, register_offset,
    write_request, Register, ResponseCode, START_SWITCH, STOP_SWITCH,
};

#[test]
fn command_words_encode_address_and_byte_enables() {
    // Word-aligned registers sit in the low half: byte enables 0b11 << 2.
    assert_eq!(register_offset(0x000), 0x000c);
    assert_eq!(register_offset(0x004), 0x004c);
    // Half-word-offset registers sit in the high half: enables 0b11 << 4.
    assert_eq!(register_offset(0x002), 0x0030);
    assert_eq!(register_offset(0x006), 0x0070);
    assert_eq!(Register::CIDER.value(), 0x000c);
    assert_eq!(Register::SGCR1.value(), 0x0030);
    assert_eq!(Register::MACAR1.value(), register_offset(0x010));
}

#[test]
fn read_request_is_the_command_word_big_endian() {
    assert_eq!(read_request(Register::CIDER), vec![0x00, 0x0c, 0x00, 0x00]);
    assert_eq!(read_request(Register::SGCR1), vec![0x00, 0x30, 0x00, 0x00]);
}

#[test]
fn write_request_sets_the_write_bit_and_carries_the_value() {
    // Command 0x000c with the write bit: 0x800c; value little endian.
    assert_eq!(
        write_request(Register::CIDER, 0x1234),
        vec![0x80, 0x0c, 0x34, 0x12]
    );
    assert_eq!(
        write_request(Register::CIDER, START_SWITCH),
        vec![0x80, 0x0c, 0x01, 0x00]
    );
    assert_eq!(
        write_request(Register::CIDER, STOP_SWITCH),
        vec![0x80, 0x0c, 0x00, 0x00]
    );
}

#[test]
fn read_response_value_is_little_endian_in_the_tail() {
    let response = vec![0x00, 0x00, 0x52, 0x84];
    assert_eq!(parse_read_response(0, &response), Ok(0x8452));
    assert_eq!(
        parse_read_response(2, &response),
        Err(ResponseCode::BadArg)
    );
}

#[test]
fn write_response_codes() {
    assert_eq!(parse_write_response(0), Ok(()));
    assert_eq!(parse_write_response(2), Err(ResponseCode::BadArg));
    assert_eq!(ResponseCode::BadArg.code(), 2);
}

#[test]
fn switch_is_enabled_by_the_low_cider_bit() {
    assert!(enabled_from(0x8451));
    assert!(!enabled_from(0x8450));
}
