use netpong::protocol::DecodeOutcome;
use netpong::protocol::PaddleCommand;
use netpong::protocol::decode_datagram;
use netpong::protocol::encode_command;
use netpong::protocol::validate_utf8;

#[test]
fn encode_exact_bytes() {
    assert_eq!(encode_command(PaddleCommand::Left), b"LEFT".to_vec());
    assert_eq!(encode_command(PaddleCommand::Right), b"RIGHT".to_vec());
    assert_eq!(encode_command(PaddleCommand::Stop), b"STOP".to_vec());
}

#[test]
fn round_trip_all_commands() {
    for c in [PaddleCommand::Left, PaddleCommand::Right, PaddleCommand::Stop] {
        let bytes = encode_command(c);
        assert_eq!(decode_datagram(&bytes), DecodeOutcome::Command(c));
        assert_eq!(decode_datagram(&bytes).command(), Some(c));
    }
}

#[test]
fn invalid_utf8_yields_no_command() {
    let outcome = decode_datagram(&[0xff, 0xfe, 0x41]);
    assert_eq!(outcome, DecodeOutcome::InvalidUtf8);
    assert_eq!(outcome.command(), None);
}

#[test]
fn decoding_continues_after_invalid_datagram() {
    // A malformed datagram is discarded; the very next datagram still
    // decodes normally.
    assert_eq!(decode_datagram(&[0xc0, 0xaf]).command(), None);
    assert_eq!(
        decode_datagram(b"LEFT"),
        DecodeOutcome::Command(PaddleCommand::Left)
    );
}

#[test]
fn unknown_word_is_discarded() {
    let outcome = decode_datagram(b"JUMP");
    assert_eq!(outcome, DecodeOutcome::Unrecognized);
    assert_eq!(outcome.command(), None);
}

#[test]
fn decode_is_case_sensitive() {
    assert_eq!(decode_datagram(b"left"), DecodeOutcome::Unrecognized);
    assert_eq!(decode_datagram(b"Stop"), DecodeOutcome::Unrecognized);
}

#[test]
fn whole_payload_must_match() {
    assert_eq!(decode_datagram(b"LEFT "), DecodeOutcome::Unrecognized);
    assert_eq!(decode_datagram(b" LEFT"), DecodeOutcome::Unrecognized);
    assert_eq!(decode_datagram(b"LEF"), DecodeOutcome::Unrecognized);
    assert_eq!(decode_datagram(b"LEFTRIGHT"), DecodeOutcome::Unrecognized);
}

#[test]
fn empty_payload_is_unrecognized() {
    assert_eq!(decode_datagram(b""), DecodeOutcome::Unrecognized);
}

#[test]
fn utf8_validator_accepts_well_formed_sequences() {
    assert!(validate_utf8(b"plain ascii"));
    assert!(validate_utf8(&[0xc2, 0x80]));
    assert!(validate_utf8(&[0xdf, 0xbf]));
    assert!(validate_utf8(&[0xe0, 0xa0, 0x80]));
    assert!(validate_utf8(&[0xed, 0x9f, 0xbf]));
    assert!(validate_utf8(&[0xee, 0x80, 0x80]));
    assert!(validate_utf8(&[0xf0, 0x90, 0x80, 0x80]));
    assert!(validate_utf8(&[0xf4, 0x8f, 0xbf, 0xbf]));
    assert!(validate_utf8(b""));
}

#[test]
fn utf8_validator_rejects_malformed_sequences() {
    // Lone continuation byte.
    assert!(!validate_utf8(&[0x80]));
    // Overlong encodings.
    assert!(!validate_utf8(&[0xc0, 0xaf]));
    assert!(!validate_utf8(&[0xc1, 0x80]));
    assert!(!validate_utf8(&[0xe0, 0x80, 0x80]));
    assert!(!validate_utf8(&[0xf0, 0x80, 0x80, 0x80]));
    // Surrogate range.
    assert!(!validate_utf8(&[0xed, 0xa0, 0x80]));
    // Above the last scalar value.
    assert!(!validate_utf8(&[0xf4, 0x90, 0x80, 0x80]));
    assert!(!validate_utf8(&[0xf5, 0x80, 0x80, 0x80]));
    // Truncated sequences.
    assert!(!validate_utf8(&[0xc2]));
    assert!(!validate_utf8(&[0xe2, 0x82]));
    assert!(!validate_utf8(&[0xf0, 0x90, 0x80]));
    // Continuation byte out of range.
    assert!(!validate_utf8(&[0xc2, 0x41]));
    assert!(!validate_utf8(&[0xe2, 0x82, 0xc0]));
}

#[test]
fn agrees_with_std_utf8_check_on_samples() {
    let samples: Vec<Vec<u8>> = vec![
        b"LEFT".to_vec(),
        vec![0xff],
        vec![0xe4, 0xbd, 0xa0, 0xe5, 0xa5, 0xbd],
        vec![0xed, 0xbf, 0xbf],
        vec![0xf1, 0x80, 0x80, 0x80],
        vec![0x7f, 0xc3, 0xa9],
        vec![0xc3, 0x28],
    ];
    for s in samples {
        assert_eq!(validate_utf8(&s), std::str::from_utf8(&s).is_ok());
    }
}
