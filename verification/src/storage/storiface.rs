//! Types exchanged with the sealing manager: sectors, commit outputs, calls and call errors.

use vstd::prelude::*;
use base64::Engine;
use crate::text::{decimal, push_decimal, hex_digits};

verus! {

/// Identifies a sector: the miner actor id and the sector number.
#[derive(Debug, Clone, Copy, PartialEq, Eq, Structural)]
pub struct SectorId {
    pub miner: u64,
    pub number: u64,
}

/// The file name of a sector: `s-t0<miner>-<number>`.
pub open spec fn sector_name_text(id: SectorId) -> Seq<char> {
    "s-t0"@ + decimal(id.miner as nat) + "-"@ + decimal(id.number as nat)
}

/// The file name of a sector, `s-t0<miner>-<number>`.
pub fn sector_name(sector_id: SectorId) -> (s: String)
    ensures
        s@ == sector_name_text(sector_id),
{
    let mut s = String::from_str("s-t0");
    push_decimal(&mut s, sector_id.miner);
    s.append("-");
    push_decimal(&mut s, sector_id.number);
    s
}

/// A piece size before padding.
#[derive(Debug, Clone, Copy, PartialEq, Eq, Structural)]
pub struct UnpaddedPieceSize(pub u64);

/// A sector together with its registered seal proof type (the proof type's numeric code).
#[derive(Debug, Clone, Copy, PartialEq, Eq, Structural)]
pub struct SectorRef {
    pub id: SectorId,
    pub proof_type: i64,
}

/// Arguments of an add-piece request.
#[derive(Debug, Clone)]
pub struct AddPieceArgs {
    pub sector: SectorRef,
    pub piece_sizes: Vec<u64>,
    pub piece_size: UnpaddedPieceSize,
    pub root: String,
}

/// The character of a standard base64 digit.
pub open spec fn b64_char(i: int) -> char {
    if i < 26 {
        (65 + i) as char
    } else if i < 52 {
        (97 + (i - 26)) as char
    } else if i < 62 {
        (48 + (i - 52)) as char
    } else if i == 62 {
        '+'
    } else {
        '/'
    }
}

/// Standard base64 with padding: each group of three bytes becomes four digits,
/// a final group of one or two bytes is completed with `=`.
pub open spec fn b64_encode(s: Seq<u8>) -> Seq<char>
    decreases s.len(),
{
    if s.len() == 0 {
        Seq::empty()
    } else {
        let b0 = s[0] as int;
        let b1 = if s.len() > 1 { s[1] as int } else { 0 };
        let b2 = if s.len() > 2 { s[2] as int } else { 0 };
        if s.len() == 1 {
            seq![b64_char(b0 / 4), b64_char((b0 % 4) * 16), '=', '=']
        } else if s.len() == 2 {
            seq![b64_char(b0 / 4), b64_char((b0 % 4) * 16 + b1 / 16), b64_char((b1 % 16) * 4), '=']
        } else {
            seq![
                b64_char(b0 / 4),
                b64_char((b0 % 4) * 16 + b1 / 16),
                b64_char((b1 % 16) * 4 + b2 / 64),
                b64_char(b2 % 64),
            ] + b64_encode(s.skip(3))
        }
    }
}


/// Distinct base64 digits have distinct characters, none of them the pad `=`.
proof fn lemma_b64_char_injective(i: int, j: int)
    requires
        0 <= i < 64,
        0 <= j < 64,
    ensures
        b64_char(i) == b64_char(j) ==> i == j,
        b64_char(i) != '=',
{
}

proof fn lemma_b64_encode_len(s: Seq<u8>)
    ensures
        b64_encode(s).len() == 4 * ((s.len() + 2) / 3),
    decreases s.len(),
{
    if s.len() > 2 {
        lemma_b64_encode_len(s.skip(3));
    }
}


/// The digits of a group of three bytes determine the bytes.
proof fn lemma_base64_group_digits(a0: int, a1: int, a2: int, b0: int, b1: int, b2: int)
    requires
        0 <= a0 < 256, 0 <= a1 < 256, 0 <= a2 < 256,
        0 <= b0 < 256, 0 <= b1 < 256, 0 <= b2 < 256,
        a0 / 4 == b0 / 4,
        (a0 % 4) * 16 + a1 / 16 == (b0 % 4) * 16 + b1 / 16,
        (a1 % 16) * 4 + a2 / 64 == (b1 % 16) * 4 + b2 / 64,
        a2 % 64 == b2 % 64,
    ensures
        a0 == b0,
        a1 == b1,
        a2 == b2,
{
}

/// Base64 encoding loses nothing: equal encodings come from equal bytes.
pub proof fn lemma_b64_encode_injective(a: Seq<u8>, b: Seq<u8>)
    requires
        b64_encode(a) == b64_encode(b),
    ensures
        a == b,
    decreases a.len(),
{
    lemma_b64_encode_len(a);
    lemma_b64_encode_len(b);
    if a.len() == 0 || b.len() == 0 {
        assert(a.len() == 0 && b.len() == 0);
        assert(a =~= b);
    } else {
        let ea = b64_encode(a);
        let a0 = a[0] as int;
        let b0 = b[0] as int;
        let a1 = if a.len() > 1 { a[1] as int } else { 0 };
        let b1 = if b.len() > 1 { b[1] as int } else { 0 };
        let a2 = if a.len() > 2 { a[2] as int } else { 0 };
        let b2 = if b.len() > 2 { b[2] as int } else { 0 };
        assert(ea[0] == b64_char(a0 / 4) && ea[0] == b64_char(b0 / 4));
        lemma_b64_char_injective(a0 / 4, b0 / 4);
        lemma_b64_char_injective((a0 % 4) * 16 + a1 / 16, (b0 % 4) * 16 + b1 / 16);
        lemma_b64_char_injective((a1 % 16) * 4 + a2 / 64, (b1 % 16) * 4 + b2 / 64);
        lemma_b64_char_injective((a1 % 16) * 4, (b1 % 16) * 4);
        lemma_b64_char_injective(a2 % 64, b2 % 64);
        lemma_b64_char_injective((a0 % 4) * 16, (b0 % 4) * 16);
        lemma_b64_char_injective((a1 % 16) * 4 + a2 / 64, (b1 % 16) * 4);
        lemma_b64_char_injective((a1 % 16) * 4, (b1 % 16) * 4 + b2 / 64);
        lemma_b64_char_injective((a0 % 4) * 16 + a1 / 16, (b0 % 4) * 16);
        lemma_b64_char_injective((a0 % 4) * 16, (b0 % 4) * 16 + b1 / 16);
        lemma_b64_char_injective(a2 % 64, 0);
        lemma_b64_char_injective(b2 % 64, 0);
        lemma_b64_char_injective((a1 % 16) * 4 + a2 / 64, 0);
        lemma_b64_char_injective((b1 % 16) * 4 + b2 / 64, 0);
        lemma_b64_char_injective((a1 % 16) * 4, 0);
        lemma_b64_char_injective((b1 % 16) * 4, 0);
        assert(a.len() == b.len() || (a.len() >= 3 && b.len() >= 3));
        if a.len() >= 3 {
            assert(b64_encode(a.skip(3)) =~= ea.skip(4));
            assert(b64_encode(b.skip(3)) =~= ea.skip(4));
            lemma_b64_encode_injective(a.skip(3), b.skip(3));
            assert(ea[1] == b64_char((a0 % 4) * 16 + a1 / 16));
            assert(ea[1] == b64_char((b0 % 4) * 16 + b1 / 16));
            assert(ea[2] == b64_char((a1 % 16) * 4 + a2 / 64));
            assert(ea[2] == b64_char((b1 % 16) * 4 + b2 / 64));
            assert(ea[3] == b64_char(a2 % 64));
            assert(ea[3] == b64_char(b2 % 64));
            lemma_base64_group_digits(a0, a1, a2, b0, b1, b2);
            assert(a =~= seq![a[0], a[1], a[2]] + a.skip(3));
            assert(b =~= seq![b[0], b[1], b[2]] + b.skip(3));
        } else {
            assert(ea[1] == b64_char((a0 % 4) * 16 + a1 / 16));
            assert(ea[1] == b64_char((b0 % 4) * 16 + b1 / 16));
            if a.len() == 2 {
                assert(ea[2] == b64_char((a1 % 16) * 4));
                assert(ea[2] == b64_char((b1 % 16) * 4));
            }
            lemma_base64_group_digits(a0, a1, 0, b0, b1, 0);
            assert(a =~= b);
        }
    }
}

/// Encodes bytes with the standard base64 alphabet and padding (`base64::engine::general_purpose::STANDARD`).
/// Claimed: the result is exactly `b64_encode` of the bytes.
#[verifier::external_body]
fn base64_standard_encode(data: &Vec<u8>) -> (s: String)
    ensures
        s@ == b64_encode(data@),
{
    base64::engine::general_purpose::STANDARD.encode(data)
}

/// Decodes standard base64 (`base64::engine::general_purpose::STANDARD`), which requires canonical
/// padding and rejects trailing bits. Claimed: it succeeds exactly on the texts that are the
/// encoding of some bytes, and then gives those bytes.
#[verifier::external_body]
fn base64_standard_decode(text: &str) -> (r: Option<Vec<u8>>)
    ensures
        r matches Some(v) ==> b64_encode(v@) == text@,
        (exists|v: Seq<u8>| b64_encode(v) == text@) ==> r is Some,
{
    base64::engine::general_purpose::STANDARD.decode(text.as_bytes()).ok()
}

/// The output of commit phase 1, carried as base64 text on the wire.
#[derive(Debug, Clone)]
pub struct Commit1Out(pub Vec<u8>);

impl Commit1Out {
    /// The wire form: standard base64 of the bytes.
    pub fn to_base64(&self) -> (s: String)
        ensures
            s@ == b64_encode(self.0@),
    {
        base64_standard_encode(&self.0)
    }

    /// Reads the wire form; `None` when the text is not standard base64.
    pub fn from_base64(text: &str) -> (r: Option<Commit1Out>)
        ensures
            r matches Some(c) ==> b64_encode(c.0@) == text@,
            r is None <==> !(exists|v: Seq<u8>| b64_encode(v) == text@),
    {
        match base64_standard_decode(text) {
            Some(v) => Some(Commit1Out(v)),
            None => None,
        }
    }
}

} // verus!

verus! {

/// The hyphenated lower-case text of a UUID given as its 128-bit big-endian value:
/// hexadecimal groups of 8, 4, 4, 4 and 12 digits separated by `-`.
pub open spec fn uuid_text(v: u128) -> Seq<char> {
    let n = v as nat;
    hex_digits(n / 0x1_0000_0000_0000_0000_0000_0000, 8) + "-"@
        + hex_digits(n / 0x1_0000_0000_0000_0000_0000 % 0x1_0000, 4) + "-"@
        + hex_digits(n / 0x1_0000_0000_0000_0000 % 0x1_0000, 4) + "-"@
        + hex_digits(n / 0x1_0000_0000_0000 % 0x1_0000, 4) + "-"@
        + hex_digits(n % 0x1_0000_0000_0000, 12)
}

/// Displays a UUID (`uuid::Uuid::from_u128` then `to_string`, which writes the hyphenated
/// lower-case form). Claimed: the result is `uuid_text` of the value.
#[verifier::external_body]
fn uuid_to_text(v: u128) -> (s: String)
    ensures
        s@ == uuid_text(v),
{
    uuid::Uuid::from_u128(v).to_string()
}

/// A fresh random UUID (`uuid::Uuid::new_v4`, as its 128-bit value). Claimed only what every
/// outcome has: the version nibble is 4 and the variant bits are `10`.
#[verifier::external_body]
fn random_uuid_v4() -> (v: u128)
    ensures
        (v >> 76u128) & 0xfu128 == 4,
        (v >> 62u128) & 0x3u128 == 2,
{
    uuid::Uuid::new_v4().as_u128()
}

/// Identifies one call made to the worker.
#[derive(Debug, Clone, Copy, PartialEq, Eq, Structural)]
pub struct CallID {
    pub sector: SectorId,
    /// The call's UUID, as its 128-bit big-endian value.
    pub id: u128,
}

/// The text of a call id: `<miner>-<number>-<uuid>`.
pub open spec fn call_id_text(ci: CallID) -> Seq<char> {
    decimal(ci.sector.miner as nat) + "-"@ + decimal(ci.sector.number as nat) + "-"@ + uuid_text(ci.id)
}

impl CallID {
    /// A new call on `sector` with a fresh random version 4 UUID.
    pub fn new_random(sector: SectorId) -> (ci: CallID)
        ensures
            ci.sector == sector,
            (ci.id >> 76u128) & 0xfu128 == 4,
            (ci.id >> 62u128) & 0x3u128 == 2,
    {
        CallID { sector, id: random_uuid_v4() }
    }

    /// The text of the call id, `<miner>-<number>-<uuid>`.
    pub fn to_string(&self) -> (s: String)
        ensures
            s@ == call_id_text(*self),
    {
        let mut s = String::new();
        push_decimal(&mut s, self.sector.miner);
        s.append("-");
        push_decimal(&mut s, self.sector.number);
        s.append("-");
        let u = uuid_to_text(self.id);
        s.append(u.as_str());
        proof {
            assert(s@ =~= call_id_text(*self));
        }
        s
    }
}

/// Error codes of failed calls.
#[derive(Debug, Clone, Copy, PartialEq, Eq, Structural)]
pub enum ErrorCode {
    ErrUnknown,
    ErrTempUnknown,
    ErrTempWorkerRestart,
    ErrTempAllocateSpace,
}

/// The numeric value of an error code.
pub open spec fn error_code_value(c: ErrorCode) -> u64 {
    match c {
        ErrorCode::ErrUnknown => 0,
        ErrorCode::ErrTempUnknown => 100,
        ErrorCode::ErrTempWorkerRestart => 101,
        ErrorCode::ErrTempAllocateSpace => 102,
    }
}

impl ErrorCode {
    /// The numeric value of the code: 0, then 100, 101 and 102 for the temporary errors.
    pub fn value(&self) -> (v: u64)
        ensures
            v == error_code_value(*self),
    {
        match self {
            ErrorCode::ErrUnknown => 0,
            ErrorCode::ErrTempUnknown => 100,
            ErrorCode::ErrTempWorkerRestart => 101,
            ErrorCode::ErrTempAllocateSpace => 102,
        }
    }
}

/// The error of a failed call: a code, a message, and the underlying error when there is one.
#[derive(Debug, Clone)]
pub struct CallError {
    pub code: ErrorCode,
    pub message: String,
    /// The text of the underlying error; it is not carried on the wire.
    pub sub: Option<String>,
}

impl CallError {
    /// The text of the underlying error, if the error was made with one.
    pub open spec fn cause(&self) -> Option<Seq<char>> {
        match self.sub {
            Some(t) => Some(t@),
            None => None,
        }
    }

    /// The text of what `unwrap` gives: the underlying error's, else the message.
    pub open spec fn unwrapped_text(&self) -> Seq<char> {
        match self.cause() {
            Some(c) => c,
            None => self.message@,
        }
    }

    /// A call error with `code`; its message is the text of `err`, or empty without one.
    pub fn new(code: ErrorCode, err: Option<String>) -> (e: CallError)
        ensures
            e.code == code,
            e.message@ == (match err {
                Some(t) => t@,
                None => Seq::<char>::empty(),
            }),
            e.cause() == (match err {
                Some(t) => Some(t@),
                None => None::<Seq<char>>,
            }),
    {
        match err {
            Some(t) => {
                let message = t.clone();
                CallError { code, message, sub: Some(t) }
            },
            None => CallError { code, message: String::new(), sub: None },
        }
    }

    /// A call error as it is read back from the wire: code and message, no underlying error.
    pub fn from_parts(code: ErrorCode, message: String) -> (e: CallError)
        ensures
            e.code == code,
            e.message@ == message@,
            e.cause() == None::<Seq<char>>,
    {
        CallError { code, message, sub: None }
    }

    /// The underlying error; without one, an error made from the message.
    pub fn unwrap(&self) -> (t: String)
        ensures
            t@ == self.unwrapped_text(),
    {
        match &self.sub {
            Some(t) => t.clone(),
            None => self.message.clone(),
        }
    }
}

} // verus!

verus! {

/// Reading back the wire form of a commit phase 1 output gives the same bytes: the base64 text
/// of `bytes` decodes (some decoding exists) and any decoding of it is `bytes` itself.
pub proof fn law_commit1_out_base64_round_trip(bytes: Seq<u8>, decoded: Seq<u8>)
    ensures
        exists|v: Seq<u8>| b64_encode(v) == b64_encode(bytes),
        b64_encode(decoded) == b64_encode(bytes) ==> decoded == bytes,
{
    assert(b64_encode(bytes) == b64_encode(bytes));
    if b64_encode(decoded) == b64_encode(bytes) {
        lemma_b64_encode_injective(decoded, bytes);
    }
}

/// Unwrapping a call error made from an error gives that error's text; the error read back from
/// the wire (its code and message, nothing underlying) unwraps to the same text.
pub proof fn law_call_error_unwrap(text: Seq<char>, made: CallError, wire: CallError)
    requires
        made.message@ == text,
        made.cause() == Some(text),
        wire.message@ == made.message@,
        wire.cause() is None,
    ensures
        made.unwrapped_text() == text,
        wire.unwrapped_text() == made.unwrapped_text(),
{
}

} // verus!
