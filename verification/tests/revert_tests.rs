use provider_errors::revert::output_renderable;
use provider_errors::revert::panic_code_to_error_reason;
use provider_errors::revert::revert_error;

fn panic_payload(code_byte: u8) -> Vec<u8> {
    let mut v = vec![0x4e, 0x48, 0x7b, 0x71];
    for _ in 0..31 {
        v.push(0u8);
    }
    v.push(code_byte);
    v
}

fn error_string_payload(reason: &[u8]) -> Vec<u8> {
    let mut v = vec![0x08, 0xc3, 0x79, 0xa0];
    // head word: offset 0x20
    for _ in 0..31 {
        v.push(0u8);
    }
    v.push(0x20);
    // length word
    for _ in 0..31 {
        v.push(0u8);
    }
    v.push(reason.len() as u8);
    // the string bytes, padded to a full word
    v.extend_from_slice(reason);
    while (v.len() - 4) % 32 != 0 {
        v.push(0u8);
    }
    v
}

#[test]
fn empty_output_has_fixed_message() {
    let out: Vec<u8> = vec![];
    assert_eq!(revert_error(&out), "Transaction reverted without a reason");
}

#[test]
fn panic_code_17_message() {
    let out = panic_payload(0x11);
    assert_eq!(
        revert_error(&out),
        "VM Exception while processing transaction: reverted with panic code 17 \
         (Arithmetic operation underflowed or overflowed outside of an unchecked block)"
    );
    let msg = revert_error(&out);
    assert!(msg.contains("panic code 17"));
    assert!(msg.contains(
        "Arithmetic operation underflowed or overflowed outside of an unchecked block"
    ));
}

#[test]
fn unknown_panic_code_message() {
    let out = panic_payload(0x99);
    let msg = revert_error(&out);
    assert_eq!(
        msg,
        "VM Exception while processing transaction: reverted with panic code 153 (Unknown panic code)"
    );
    assert!(msg.ends_with("Unknown panic code)"));
}

#[test]
fn reason_string_message() {
    let out = error_string_payload(b"insufficient balance");
    assert_eq!(
        revert_error(&out),
        "reverted with reason string 'insufficient balance'"
    );
}

#[test]
fn reason_string_without_padding() {
    // Lenient decoding accepts a payload whose string is not padded.
    let mut v = vec![0x08, 0xc3, 0x79, 0xa0];
    for _ in 0..31 {
        v.push(0u8);
    }
    v.push(0x20);
    for _ in 0..31 {
        v.push(0u8);
    }
    v.push(2u8);
    v.push(b'h');
    v.push(b'i');
    assert_eq!(revert_error(&v), "reverted with reason string 'hi'");
}

#[test]
fn invalid_utf8_reason_is_decoded_lossily() {
    let out = error_string_payload(&[b'a', 0xff, b'b']);
    assert_eq!(
        revert_error(&out),
        "reverted with reason string 'a\u{fffd}b'"
    );
}

#[test]
fn custom_error_message() {
    let out: Vec<u8> = vec![0x12, 0x34, 0x56, 0x78, 0xab, 0xcd];
    let msg = revert_error(&out);
    assert_eq!(
        msg,
        "VM Exception while processing transaction: reverted with an unrecognized \
         custom error (return data: 0x12345678abcd)"
    );
    assert!(msg.contains("unrecognized custom error"));
    assert!(msg.contains("12345678abcd"));
}

#[test]
fn short_output_falls_back_to_hex() {
    let out: Vec<u8> = vec![0xde, 0xad];
    assert_eq!(
        revert_error(&out),
        "VM Exception while processing transaction: reverted with an unrecognized \
         custom error (return data: 0xdead)"
    );
}

#[test]
fn truncated_error_string_falls_back_to_hex() {
    // The Error(string) selector with too few bytes for even the head word.
    let out: Vec<u8> = vec![0x08, 0xc3, 0x79, 0xa0, 0x01];
    assert_eq!(
        revert_error(&out),
        "VM Exception while processing transaction: reverted with an unrecognized \
         custom error (return data: 0x08c379a001)"
    );
}

#[test]
fn error_string_with_wild_offset_falls_back_to_hex() {
    // A head word pointing far outside the payload.
    let mut v = vec![0x08, 0xc3, 0x79, 0xa0];
    for _ in 0..31 {
        v.push(0xffu8);
    }
    v.push(0xffu8);
    let msg = revert_error(&v);
    assert!(msg.starts_with(
        "VM Exception while processing transaction: reverted with an unrecognized \
         custom error (return data: 0x08c379a0ff"
    ));
}

#[test]
fn error_string_with_oversized_length_falls_back_to_hex() {
    // A length word claiming more bytes than the payload holds.
    let mut v = vec![0x08u8, 0xc3, 0x79, 0xa0];
    for _ in 0..31 {
        v.push(0u8);
    }
    v.push(0x20);
    for _ in 0..31 {
        v.push(0u8);
    }
    v.push(200u8);
    v.push(b'x');
    let msg = revert_error(&v);
    assert!(msg.starts_with(
        "VM Exception while processing transaction: reverted with an unrecognized \
         custom error (return data: 0x08c379a0"
    ));
}

#[test]
fn truncated_panic_falls_back_to_hex() {
    let out: Vec<u8> = vec![0x4e, 0x48, 0x7b, 0x71, 0x11];
    assert_eq!(
        revert_error(&out),
        "VM Exception while processing transaction: reverted with an unrecognized \
         custom error (return data: 0x4e487b7111)"
    );
}

#[test]
fn renderable_check() {
    assert!(output_renderable(&[]));
    assert!(output_renderable(&panic_payload(0x11)));
    assert!(output_renderable(&[0x12, 0x34, 0x56, 0x78]));
    assert!(output_renderable(&error_string_payload(b"hi")));
    // A panic payload whose code does not fit in 64 bits is the one shape
    // the decoder refuses.
    let mut huge = vec![0x4e, 0x48, 0x7b, 0x71];
    for _ in 0..32 {
        huge.push(0xffu8);
    }
    assert!(!output_renderable(&huge));
}

#[test]
fn panic_code_table() {
    assert_eq!(panic_code_to_error_reason(0x1), "Assertion error");
    assert_eq!(
        panic_code_to_error_reason(0x11),
        "Arithmetic operation underflowed or overflowed outside of an unchecked block"
    );
    assert_eq!(
        panic_code_to_error_reason(0x12),
        "Division or modulo division by zero"
    );
    assert_eq!(
        panic_code_to_error_reason(0x21),
        "Tried to convert a value into an enum, but the value was too big or negative"
    );
    assert_eq!(
        panic_code_to_error_reason(0x22),
        "Incorrectly encoded storage byte array"
    );
    assert_eq!(
        panic_code_to_error_reason(0x31),
        ".pop() was called on an empty array"
    );
    assert_eq!(
        panic_code_to_error_reason(0x32),
        "Array accessed at an out-of-bounds or negative index"
    );
    assert_eq!(
        panic_code_to_error_reason(0x41),
        "Too much memory was allocated, or an array was created that is too large"
    );
    assert_eq!(
        panic_code_to_error_reason(0x51),
        "Called a zero-initialized variable of internal function type"
    );
    assert_eq!(panic_code_to_error_reason(0x99), "Unknown panic code");
    assert_eq!(panic_code_to_error_reason(0), "Unknown panic code");
}
