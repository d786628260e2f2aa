//! Wire protocol for paddle intent.
//!
//! Every simulation tick each peer sends exactly one datagram whose whole
//! payload is one of the three UTF-8 words `LEFT`, `RIGHT` or `STOP`.
//! Decoding is total: any byte sequence yields either exactly one of the
//! three commands or a discard outcome (malformed UTF-8, or text that is
//! none of the three words).  Malformed input never aborts the receiver.

use vstd::prelude::*;

verus! {

/// One peer's paddle intent for a single simulation tick: move toward
/// negative x, move toward positive x, or stay put.  This is the sole
/// unit of cross-peer communication.
#[derive(Clone, Copy, PartialEq, Eq, Structural, Debug)]
pub enum PaddleCommand {
    Left,
    Right,
    Stop,
}

/// Outcome of decoding one inbound datagram.  Every byte sequence falls
/// in exactly one of these; the two non-command outcomes are logged and
/// discarded by the receiver, never fatal.
#[derive(Clone, Copy, PartialEq, Eq, Structural, Debug)]
pub enum DecodeOutcome {
    /// The payload is exactly one of the three command words.
    Command(PaddleCommand),
    /// The payload is not valid UTF-8.
    InvalidUtf8,
    /// The payload is valid UTF-8 text but not a command word.
    Unrecognized,
}

/// Size of the datagram receive buffer, in bytes: ample room for the
/// longest command word.
pub const RECV_BUFFER_LEN: usize = 10;

/// The exact wire bytes of a command word (`LEFT`, `RIGHT` or `STOP`
/// as ASCII).
pub open spec fn spec_encode(c: PaddleCommand) -> Seq<u8> {
    match c {
        PaddleCommand::Left => seq![76u8, 69u8, 70u8, 84u8],
        PaddleCommand::Right => seq![82u8, 73u8, 71u8, 72u8, 84u8],
        PaddleCommand::Stop => seq![83u8, 84u8, 79u8, 80u8],
    }
}

/// A UTF-8 continuation byte: `0b10xx_xxxx`.
pub open spec fn is_cont_byte(b: u8) -> bool {
    0x80 <= b && b <= 0xBF
}

/// Well-formed UTF-8, by the shortest-form encoding rules: ASCII bytes
/// stand alone; leading bytes `C2..DF`, `E0..EF` and `F0..F4` open two-,
/// three- and four-byte sequences whose continuation bytes are range
/// checked so that overlong forms, surrogates and values above
/// `U+10FFFF` are all rejected.
pub open spec fn is_utf8(s: Seq<u8>) -> bool
    decreases s.len(),
{
    if s.len() == 0 {
        true
    } else {
        let b0 = s[0];
        if b0 < 0x80 {
            is_utf8(s.skip(1))
        } else if b0 < 0xC2 {
            false
        } else if b0 < 0xE0 {
            s.len() >= 2 && is_cont_byte(s[1]) && is_utf8(s.skip(2))
        } else if b0 == 0xE0 {
            s.len() >= 3 && 0xA0 <= s[1] && s[1] <= 0xBF && is_cont_byte(s[2])
                && is_utf8(s.skip(3))
        } else if b0 == 0xED {
            s.len() >= 3 && 0x80 <= s[1] && s[1] <= 0x9F && is_cont_byte(s[2])
                && is_utf8(s.skip(3))
        } else if b0 < 0xF0 {
            s.len() >= 3 && is_cont_byte(s[1]) && is_cont_byte(s[2])
                && is_utf8(s.skip(3))
        } else if b0 == 0xF0 {
            s.len() >= 4 && 0x90 <= s[1] && s[1] <= 0xBF && is_cont_byte(s[2])
                && is_cont_byte(s[3]) && is_utf8(s.skip(4))
        } else if b0 < 0xF4 {
            s.len() >= 4 && is_cont_byte(s[1]) && is_cont_byte(s[2])
                && is_cont_byte(s[3]) && is_utf8(s.skip(4))
        } else if b0 == 0xF4 {
            s.len() >= 4 && 0x80 <= s[1] && s[1] <= 0x8F && is_cont_byte(s[2])
                && is_cont_byte(s[3]) && is_utf8(s.skip(4))
        } else {
            false
        }
    }
}

/// What decoding a datagram payload yields.  Total over all byte
/// sequences: a command word decodes to its command, anything else is
/// one of the two discard outcomes.
pub open spec fn spec_decode(b: Seq<u8>) -> DecodeOutcome {
    if b == spec_encode(PaddleCommand::Left) {
        DecodeOutcome::Command(PaddleCommand::Left)
    } else if b == spec_encode(PaddleCommand::Right) {
        DecodeOutcome::Command(PaddleCommand::Right)
    } else if b == spec_encode(PaddleCommand::Stop) {
        DecodeOutcome::Command(PaddleCommand::Stop)
    } else if is_utf8(b) {
        DecodeOutcome::Unrecognized
    } else {
        DecodeOutcome::InvalidUtf8
    }
}

/// The command carried by a decode outcome, if any.
pub open spec fn spec_command_of(o: DecodeOutcome) -> Option<PaddleCommand> {
    match o {
        DecodeOutcome::Command(c) => Some(c),
        DecodeOutcome::InvalidUtf8 => None,
        DecodeOutcome::Unrecognized => None,
    }
}

impl DecodeOutcome {
    /// The command carried by this outcome; `None` for the two discard
    /// outcomes, so a malformed datagram contributes nothing to the
    /// command queue.
    pub fn command(self) -> (r: Option<PaddleCommand>)
        ensures
            r == spec_command_of(self),
    {
        match self {
            DecodeOutcome::Command(c) => Some(c),
            DecodeOutcome::InvalidUtf8 => None,
            DecodeOutcome::Unrecognized => None,
        }
    }
}

/// Encode a command as the full payload of one outbound datagram.
pub fn encode_command(c: PaddleCommand) -> (r: Vec<u8>)
    ensures
        r@ == spec_encode(c),
{
    match c {
        PaddleCommand::Left => {
            let v: Vec<u8> = vec![76u8, 69u8, 70u8, 84u8];
            proof {
                assert(v@ =~= spec_encode(PaddleCommand::Left));
            }
            v
        }
        PaddleCommand::Right => {
            let v: Vec<u8> = vec![82u8, 73u8, 71u8, 72u8, 84u8];
            proof {
                assert(v@ =~= spec_encode(PaddleCommand::Right));
            }
            v
        }
        PaddleCommand::Stop => {
            let v: Vec<u8> = vec![83u8, 84u8, 79u8, 80u8];
            proof {
                assert(v@ =~= spec_encode(PaddleCommand::Stop));
            }
            v
        }
    }
}

/// Check a buffer for UTF-8 well-formedness, one encoded scalar at a
/// time, exactly as `is_utf8` states it.
pub fn validate_utf8(buf: &[u8]) -> (r: bool)
    ensures
        r == is_utf8(buf@),
{
    let n: usize = buf.len();
    let mut i: usize = 0;
    proof {
        assert(buf@.skip(0) =~= buf@);
    }
    while i < n
        invariant
            i <= n,
            n == buf@.len(),
            is_utf8(buf@) == is_utf8(buf@.skip(i as int)),
        decreases n - i,
    {
        let ghost rest = buf@.skip(i as int);
        proof {
            assert(rest[0] == buf@[i as int]);
        }
        let b0: u8 = buf[i];
        if b0 < 0x80 {
            proof {
                assert(rest.skip(1) =~= buf@.skip(i + 1));
            }
            i += 1;
        } else if b0 < 0xC2 {
            return false;
        } else if b0 < 0xE0 {
            if n - i < 2 {
                return false;
            }
            proof {
                assert(rest[1] == buf@[i + 1]);
            }
            let b1: u8 = buf[i + 1];
            if !(0x80 <= b1 && b1 <= 0xBF) {
                return false;
            }
            proof {
                assert(rest.skip(2) =~= buf@.skip(i + 2));
            }
            i += 2;
        } else if b0 < 0xF0 {
            if n - i < 3 {
                return false;
            }
            proof {
                assert(rest[1] == buf@[i + 1]);
                assert(rest[2] == buf@[i + 2]);
            }
            let b1: u8 = buf[i + 1];
            let b2: u8 = buf[i + 2];
            let lo1: u8 = if b0 == 0xE0 { 0xA0 } else { 0x80 };
            let hi1: u8 = if b0 == 0xED { 0x9F } else { 0xBF };
            if !(lo1 <= b1 && b1 <= hi1) {
                return false;
            }
            if !(0x80 <= b2 && b2 <= 0xBF) {
                return false;
            }
            proof {
                assert(rest.skip(3) =~= buf@.skip(i + 3));
            }
            i += 3;
        } else if b0 <= 0xF4 {
            if n - i < 4 {
                return false;
            }
            proof {
                assert(rest[1] == buf@[i + 1]);
                assert(rest[2] == buf@[i + 2]);
                assert(rest[3] == buf@[i + 3]);
            }
            let b1: u8 = buf[i + 1];
            let b2: u8 = buf[i + 2];
            let b3: u8 = buf[i + 3];
            let lo1: u8 = if b0 == 0xF0 { 0x90 } else { 0x80 };
            let hi1: u8 = if b0 == 0xF4 { 0x8F } else { 0xBF };
            if !(lo1 <= b1 && b1 <= hi1) {
                return false;
            }
            if !(0x80 <= b2 && b2 <= 0xBF) {
                return false;
            }
            if !(0x80 <= b3 && b3 <= 0xBF) {
                return false;
            }
            proof {
                assert(rest.skip(4) =~= buf@.skip(i + 4));
            }
            i += 4;
        } else {
            return false;
        }
    }
    proof {
        assert(buf@.skip(n as int) =~= Seq::<u8>::empty());
    }
    true
}

/// Decode the payload of one inbound datagram.
pub fn decode_datagram(buf: &[u8]) -> (r: DecodeOutcome)
    ensures
        r == spec_decode(buf@),
{
    let n: usize = buf.len();
    if n == 4 && buf[0] == 76 && buf[1] == 69 && buf[2] == 70 && buf[3] == 84 {
        proof {
            assert(buf@ =~= spec_encode(PaddleCommand::Left));
        }
        DecodeOutcome::Command(PaddleCommand::Left)
    } else if n == 5 && buf[0] == 82 && buf[1] == 73 && buf[2] == 71 && buf[3] == 72
        && buf[4] == 84 {
        proof {
            assert(buf@ =~= spec_encode(PaddleCommand::Right));
        }
        DecodeOutcome::Command(PaddleCommand::Right)
    } else if n == 4 && buf[0] == 83 && buf[1] == 84 && buf[2] == 79 && buf[3] == 80 {
        proof {
            assert(buf@ =~= spec_encode(PaddleCommand::Stop));
        }
        DecodeOutcome::Command(PaddleCommand::Stop)
    } else {
        proof {
            assert(buf@ != spec_encode(PaddleCommand::Left));
            assert(buf@ != spec_encode(PaddleCommand::Right));
            assert(buf@ != spec_encode(PaddleCommand::Stop));
        }
        if validate_utf8(buf) {
            DecodeOutcome::Unrecognized
        } else {
            DecodeOutcome::InvalidUtf8
        }
    }
}

/// Encoding and decoding agree: the bytes of any command word decode
/// back to exactly that command.
pub proof fn lemma_round_trip(c: PaddleCommand)
    ensures
        spec_decode(spec_encode(c)) == DecodeOutcome::Command(c),
{
    assert(spec_encode(PaddleCommand::Left)[0] == 76);
    assert(spec_encode(PaddleCommand::Right)[0] == 82);
    assert(spec_encode(PaddleCommand::Stop)[0] == 83);
}

/// A receive buffer of `RECV_BUFFER_LEN` bytes holds any command word
/// whole, so no recognized command is ever truncated on arrival.
pub proof fn lemma_buffer_fits_any_command(c: PaddleCommand)
    ensures
        spec_encode(c).len() <= RECV_BUFFER_LEN,
{
}

/// Decoding yields a given command exactly on that command's own wire
/// bytes: no other byte sequence ever decodes to it.
pub proof fn lemma_decode_exact(b: Seq<u8>, c: PaddleCommand)
    ensures
        spec_decode(b) == DecodeOutcome::Command(c) <==> b == spec_encode(c),
{
    lemma_round_trip(c);
    assert(spec_encode(PaddleCommand::Left)[0] == 76);
    assert(spec_encode(PaddleCommand::Right)[0] == 82);
    assert(spec_encode(PaddleCommand::Stop)[0] == 83);
}

} // verus!
