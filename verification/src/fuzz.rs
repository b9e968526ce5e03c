//! Fuzzing: packets of random length and random content, to be sent as
//! they are in place of a forged request.
//!
//! On demand the first byte is made one that stands for a message type, so
//! that a node reads the header of an envelope and finds the rest to be
//! noise. Nothing else of the packet is made valid.

use vstd::prelude::*;
use rand::Rng;
use crate::config::Config;
use crate::protocol::Protocol;
use crate::text::{decimal, push_decimal};

verus! {

/// Fuzzed packets are shorter than this.
pub const FUZZ_LIMIT: usize = 2048;

/// The draws spent on a first byte that stands for a message type, before
/// one is picked from the message codes themselves.
pub const RESAMPLE_LIMIT: usize = 1024;

/// The generator of the thread, as the crate `rand` hands it out.
#[verifier::external_type_specification]
#[verifier::external_body]
pub struct ExThreadRng(rand::rngs::ThreadRng);

/// `rand::thread_rng` gives a handle to the generator of the thread, which
/// the system has seeded. Nothing is claimed of it.
pub assume_specification[ rand::thread_rng ]() -> (rng: rand::rngs::ThreadRng);

/// Draws a number with `Rng::gen`: any value of the type may come.
#[verifier::external_body]
fn draw_number(rng: &mut rand::rngs::ThreadRng) -> (n: usize) {
    rng.gen::<usize>()
}

/// Draws a byte with `Rng::gen`: any value of the type may come.
#[verifier::external_body]
fn draw_byte(rng: &mut rand::rngs::ThreadRng) -> (b: u8) {
    rng.gen::<u8>()
}

/// A fuzzed packet, and the length that was drawn for it first.
#[derive(Clone, Debug)]
pub struct FuzzPacket {
    /// The length as first drawn. The packet has this length, unless the
    /// draw was 0 and a first byte was called for.
    pub drawn: usize,
    pub bytes: Vec<u8>,
}

/// The length that a drawn number stands for: any below the limit.
pub open spec fn length_of(draw: usize) -> usize {
    (draw % FUZZ_LIMIT) as usize
}

/// The length that a second drawn number stands for, where the first gave
/// no room for a first byte: any from 1 up to the limit, the limit left out.
pub open spec fn second_length_of(draw: usize) -> usize {
    (draw % ((FUZZ_LIMIT - 1) as usize) + 1) as usize
}

/// The numbers of a list as decimals, with a comma and a space between them.
pub open spec fn byte_list(bytes: Seq<u8>) -> Seq<char>
    decreases bytes.len(),
{
    if bytes.len() == 0 {
        Seq::empty()
    } else if bytes.len() == 1 {
        decimal(bytes[0] as nat)
    } else {
        byte_list(bytes.drop_last()) + ", "@ + decimal(bytes.last() as nat)
    }
}

/// What is reported of a fuzzed packet: the length first drawn, and the
/// bytes as a list of numbers.
pub open spec fn fuzz_text(drawn: usize, bytes: Seq<u8>) -> Seq<char> {
    "Fuzzing: "@ + decimal(drawn as nat) + " bytes\n"@ + "["@ + byte_list(bytes) + "]\n"@
}

/// The length of a packet, from a drawn number.
pub fn fuzz_length(draw: usize) -> (len: usize)
    ensures
        len == length_of(draw),
        len < FUZZ_LIMIT,
{
    draw % FUZZ_LIMIT
}

/// The length of a packet that has to hold a first byte, from a drawn number.
pub fn fuzz_second_length(draw: usize) -> (len: usize)
    ensures
        len == second_length_of(draw),
        1 <= len < FUZZ_LIMIT,
{
    draw % (FUZZ_LIMIT - 1) + 1
}

/// Makes the first byte of a packet one that stands for a message type,
/// where the packet has a first byte and the protocol has any message
/// code. A first byte that does so already stays.
/// Else bytes are drawn until one does; should none of `RESAMPLE_LIMIT`
/// draws do, the byte is picked from the message codes by one more draw.
/// The bytes after the first stay as they are.
pub fn settle_first_byte(
    bytes: &mut Vec<u8>,
    proto: &Protocol,
    rng: &mut rand::rngs::ThreadRng,
)
    ensures
        final(bytes)@.len() == old(bytes)@.len(),
        forall|i: int| 1 <= i < old(bytes)@.len() ==> final(bytes)@[i] == old(bytes)@[i],
        old(bytes)@.len() > 0 && proto.message_codes@.len() > 0 ==> proto.recognises(
            final(bytes)@[0],
        ),
        old(bytes)@.len() > 0 && proto.recognises(old(bytes)@[0]) ==> final(bytes)@ == old(
            bytes,
        )@,
{
    if bytes.len() == 0 {
        return ;
    }
    let mut tries: usize = 0;
    let mut found: bool = proto.is_message_code(bytes[0]);
    while !found && tries < RESAMPLE_LIMIT
        invariant
            tries <= RESAMPLE_LIMIT,
            bytes@.len() == old(bytes)@.len(),
            bytes@.len() > 0,
            forall|i: int| 1 <= i < old(bytes)@.len() ==> bytes@[i] == old(bytes)@[i],
            found == proto.recognises(bytes@[0]),
            proto.recognises(old(bytes)@[0]) ==> bytes@ == old(bytes)@,
        decreases RESAMPLE_LIMIT - tries,
    {
        let b: u8 = draw_byte(rng);
        bytes.set(0, b);
        found = proto.is_message_code(b);
        tries += 1;
    }
    if !found {
        match proto.pick_code(draw_number(rng)) {
            Some(code) => {
                bytes.set(0, code);
            },
            None => {},
        }
    }
}

/// Makes a fuzzed packet. Its length is drawn below `FUZZ_LIMIT` and its
/// bytes are drawn one by one. Where the configuration calls for a valid
/// message, the packet is not empty (a length of 0 is drawn again, from 1
/// on), and its first byte is one that stands for a message type, if the
/// protocol has any; its other bytes stay noise.
pub fn forge_fuzzy_packet(cfg: &Config, proto: &Protocol) -> (fuzz: FuzzPacket)
    ensures
        fuzz.drawn < FUZZ_LIMIT,
        fuzz.bytes@.len() < FUZZ_LIMIT,
        !(cfg.fuzzy_valid_msg && fuzz.drawn == 0) ==> fuzz.bytes@.len() == fuzz.drawn,
        cfg.fuzzy_valid_msg ==> fuzz.bytes@.len() >= 1,
        cfg.fuzzy_valid_msg && proto.message_codes@.len() > 0 ==> proto.recognises(
            fuzz.bytes@[0],
        ),
{
    let mut rng = rand::thread_rng();
    let drawn: usize = fuzz_length(draw_number(&mut rng));
    let mut size: usize = drawn;
    if cfg.fuzzy_valid_msg && size == 0 {
        size = fuzz_second_length(draw_number(&mut rng));
    }
    let mut bytes: Vec<u8> = Vec::new();
    let mut i: usize = 0;
    while i < size
        invariant
            i <= size,
            bytes@.len() == i,
        decreases size - i,
    {
        bytes.push(draw_byte(&mut rng));
        i += 1;
    }
    if cfg.fuzzy_valid_msg {
        settle_first_byte(&mut bytes, proto, &mut rng);
    }
    FuzzPacket { drawn, bytes }
}

/// Appends the numbers of a list as decimals, with a comma and a space
/// between them.
pub fn push_byte_list(out: &mut String, bytes: &[u8])
    ensures
        final(out)@ == old(out)@ + byte_list(bytes@),
{
    let mut i: usize = 0;
    assert(bytes@.take(0) =~= Seq::<u8>::empty());
    assert(out@ =~= old(out)@ + byte_list(bytes@.take(0)));
    while i < bytes.len()
        invariant
            i <= bytes@.len(),
            out@ == old(out)@ + byte_list(bytes@.take(i as int)),
        decreases bytes@.len() - i,
    {
        let ghost upto = bytes@.take(i as int + 1);
        assert(upto.drop_last() =~= bytes@.take(i as int));
        assert(upto.last() == bytes@[i as int]);
        if i > 0 {
            out.append(", ");
        }
        push_decimal(out, bytes[i] as u64);
        assert(out@ =~= old(out)@ + byte_list(upto));
        i += 1;
    }
    assert(bytes@.take(bytes@.len() as int) =~= bytes@);
}

/// Reports a fuzzed packet.
pub fn fuzz_report(fuzz: &FuzzPacket) -> (report: String)
    ensures
        report@ == fuzz_text(fuzz.drawn, fuzz.bytes@),
{
    let mut report = String::from_str("Fuzzing: ");
    push_decimal(&mut report, fuzz.drawn as u64);
    report.append(" bytes\n");
    report.append("[");
    push_byte_list(&mut report, fuzz.bytes.as_slice());
    report.append("]\n");
    report
}

} // verus!
