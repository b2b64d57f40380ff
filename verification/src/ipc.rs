//! The IPC wire format: length-prefixed JSON frames.
//!
//! Each frame begins with 8 ASCII hex digits giving the payload's byte
//! length, followed immediately by the payload.  Building and parsing the
//! frame are verified here; reading from a socket and the JSON itself are
//! the embedding process's business.  The command and response shapes of
//! the protocol live here too, as plain data.
use vstd::prelude::*;
use vstd::string::StringSliceAdditionalSpecFns;

verus! {

/// What can go wrong at the protocol boundary.
#[derive(Debug)]
pub enum Error {
    /// A frame or payload that does not follow the wire format.
    InvalidPayload(String),
    /// Reading or writing a message failed.
    MessageIO(String),
    /// A payload could not be serialized.
    Serialization(String),
}

impl Error {
    /// A human-readable rendering of the error.
    pub fn describe(&self) -> (r: String)
        ensures
            match self {
                Error::InvalidPayload(reason) => r@ == reason@,
                Error::MessageIO(reason) => r@ == "Error reading message from stream for reason : "@
                    + reason@,
                Error::Serialization(reason) => r@ == reason@,
            },
    {
        match self {
            Error::InvalidPayload(reason) => reason.clone(),
            Error::MessageIO(reason) => {
                let mut r = String::from_str("Error reading message from stream for reason : ");
                r.append(reason.as_str());
                r
            },
            Error::Serialization(reason) => reason.clone(),
        }
    }
}

/// The lower-case hex digit for a value below 16.
pub open spec fn hex_digit(n: nat) -> u8 {
    if n < 10 {
        (48 + n) as u8
    } else {
        (87 + n) as u8
    }
}

/// `n` written as exactly `w` hex digits, most significant first,
/// truncating above sixteen to the power of `w`.
pub open spec fn hex_width(n: nat, w: nat) -> Seq<u8>
    decreases w,
{
    if w == 0 {
        Seq::empty()
    } else {
        hex_width(n / 16, (w - 1) as nat).push(hex_digit(n % 16))
    }
}

/// The value of one ASCII hex digit, upper or lower case.
pub open spec fn hex_val(b: u8) -> Option<nat> {
    if 48 <= b <= 57 {
        Some((b - 48) as nat)
    } else if 97 <= b <= 102 {
        Some((b - 87) as nat)
    } else if 65 <= b <= 70 {
        Some((b - 55) as nat)
    } else {
        None
    }
}

/// The value of a string of hex digits; nothing when any byte is not a
/// hex digit.  The empty string reads as zero.
pub open spec fn parse_hex(s: Seq<u8>) -> Option<nat>
    decreases s.len(),
{
    if s.len() == 0 {
        Some(0)
    } else {
        match (parse_hex(s.drop_last()), hex_val(s.last())) {
            (Some(h), Some(d)) => Some(h * 16 + d),
            _ => None,
        }
    }
}

/// Sixteen to the power of `w`.
pub open spec fn pow16(w: nat) -> nat
    decreases w,
{
    if w == 0 {
        1
    } else {
        16 * pow16((w - 1) as nat)
    }
}

/// The whole frame for a payload: its byte length as 8 hex digits, then
/// the payload bytes.
pub open spec fn frame_spec(payload: Seq<u8>) -> Seq<u8> {
    hex_width(payload.len(), 8) + payload
}

/// A frame's header names its payload's length: parsing the 8 digits that
/// `hex_width` wrote gives the length back, whenever it fits the width.
pub proof fn lemma_header_round_trip(n: nat, w: nat)
    requires
        n < pow16(w),
    ensures
        parse_hex(hex_width(n, w)) == Some(n),
    decreases w,
{
    if w == 0 {
        assert(n == 0);
        assert(hex_width(n, w) =~= Seq::<u8>::empty());
    } else {
        assert(n / 16 < pow16((w - 1) as nat)) by (nonlinear_arith)
            requires
                n < pow16(w),
                pow16(w) == 16 * pow16((w - 1) as nat),
        ;
        lemma_header_round_trip(n / 16, (w - 1) as nat);
        let s = hex_width(n, w);
        assert(s.drop_last() =~= hex_width(n / 16, (w - 1) as nat));
        assert(hex_val(hex_digit(n % 16)) == Some(n % 16));
        assert((n / 16) * 16 + n % 16 == n) by (nonlinear_arith);
    }
}

/// A whole frame decodes back to its payload: the header of
/// `frame_spec(p)` parses to `p`'s length, and the bytes after it are
/// exactly `p` — every payload below the wire format's size bound makes
/// the round trip.
pub proof fn lemma_frame_round_trip(payload: Seq<u8>)
    requires
        payload.len() < 0x100000000,
    ensures
        frame_spec(payload).len() == payload.len() + 8,
        parse_hex(frame_spec(payload).subrange(0, 8)) == Some(payload.len()),
        frame_spec(payload).skip(8) == payload,
{
    lemma_pow16_8();
    assert(hex_width(payload.len(), 8).len() == 8) by {
        lemma_hex_width_len(payload.len(), 8);
    }
    lemma_header_round_trip(payload.len(), 8);
    assert(frame_spec(payload).subrange(0, 8) =~= hex_width(payload.len(), 8));
    assert(frame_spec(payload).skip(8) =~= payload);
}

proof fn lemma_hex_width_len(n: nat, w: nat)
    ensures
        hex_width(n, w).len() == w,
    decreases w,
{
    if w > 0 {
        lemma_hex_width_len(n / 16, (w - 1) as nat);
    }
}

proof fn lemma_pow16_8()
    ensures
        pow16(8) == 0x100000000,
{
    assert(pow16(0) == 1);
    assert(pow16(1) == 16);
    assert(pow16(2) == 256);
    assert(pow16(3) == 4096);
    assert(pow16(4) == 65536);
    assert(pow16(5) == 1048576);
    assert(pow16(6) == 16777216);
    assert(pow16(7) == 268435456);
    assert(pow16(8) == 0x100000000);
}

/// One lower-case hex digit, executably.
fn hex_digit_exec(d: u8) -> (r: u8)
    requires
        d < 16,
    ensures
        r == hex_digit(d as nat),
{
    if d < 10 {
        48 + d
    } else {
        87 + d
    }
}

/// `n` as exactly `w` lower-case hex digits.
fn hex_width_exec(n: u64, w: usize) -> (r: Vec<u8>)
    ensures
        r@ == hex_width(n as nat, w as nat),
    decreases w,
{
    if w == 0 {
        Vec::new()
    } else {
        let mut r = hex_width_exec(n / 16, w - 1);
        r.push(hex_digit_exec((n % 16) as u8));
        r
    }
}

/// Converts a message into frame bytes: the first eight bytes are the
/// hexadecimal length of the message, followed by the message itself.
/// Messages at or above the wire format's size bound are refused rather
/// than framed wrongly.
pub fn payload_to_bytes(message: &str) -> (r: Result<Vec<u8>, Error>)
    ensures
        message.spec_bytes().len() < 0x100000000 ==> (r matches Ok(v) && v@ == frame_spec(
            message.spec_bytes(),
        )),
        message.spec_bytes().len() >= 0x100000000 ==> r is Err,
{
    let bytes = message.as_bytes();
    let n: usize = bytes.len();
    if (n as u128) >= 0x100000000u128 {
        return Err(Error::InvalidPayload(String::from_str("message too long to frame")));
    }
    let mut out = hex_width_exec(n as u64, 8);
    let mut i: usize = 0;
    while i < n
        invariant
            n == bytes@.len(),
            i <= n,
            out@ =~= hex_width(n as nat, 8) + bytes@.subrange(0, i as int),
        decreases n - i,
    {
        out.push(bytes[i]);
        i = i + 1;
    }
    assert(out@ =~= hex_width(n as nat, 8) + bytes@);
    Ok(out)
}

/// The payload length announced by a frame header of hex digits.
pub fn parse_hex_bytes(header: &[u8]) -> (r: Option<u64>)
    requires
        header@.len() <= 8,
    ensures
        match r {
            Some(v) => parse_hex(header@) == Some(v as nat),
            None => parse_hex(header@) is None,
        },
{
    let n: usize = header.len();
    let mut acc: u64 = 0;
    let mut i: usize = 0;
    while i < n
        invariant
            n == header@.len() <= 8,
            i <= n,
            parse_hex(header@.subrange(0, i as int)) == Some(acc as nat),
            acc < pow16(i as nat),
        decreases n - i,
    {
        let b = header[i];
        let d: u64 = if 48 <= b && b <= 57 {
            (b - 48) as u64
        } else if 97 <= b && b <= 102 {
            (b - 87) as u64
        } else if 65 <= b && b <= 70 {
            (b - 55) as u64
        } else {
            proof {
                assert(hex_val(header@[i as int]) is None);
                assert(header@.subrange(0, i + 1).drop_last() =~= header@.subrange(0, i as int));
                lemma_parse_hex_bad(header@, i as int);
            }
            return None;
        };
        proof {
            lemma_pow16_8();
            lemma_pow16_monotone(i as nat, 7);
            assert(acc * 16 + 15 < pow16(i as nat + 1)) by (nonlinear_arith)
                requires
                    acc < pow16(i as nat),
                    pow16(i as nat + 1) == 16 * pow16(i as nat),
            ;
            lemma_pow16_monotone(i as nat + 1, 8);
            assert(header@.subrange(0, i + 1).drop_last() =~= header@.subrange(0, i as int));
            assert(hex_val(header@[i as int]) == Some(d as nat));
        }
        acc = acc * 16 + d;
        i = i + 1;
    }
    proof {
        assert(header@.subrange(0, n as int) =~= header@);
    }
    Some(acc)
}

proof fn lemma_pow16_monotone(a: nat, b: nat)
    requires
        a <= b,
    ensures
        pow16(a) <= pow16(b),
    decreases b,
{
    if a < b {
        lemma_pow16_monotone(a, (b - 1) as nat);
        assert(pow16(b) == 16 * pow16((b - 1) as nat));
        assert(pow16((b - 1) as nat) <= 16 * pow16((b - 1) as nat)) by (nonlinear_arith)
            requires
                pow16((b - 1) as nat) >= 0,
        ;
    }
}

proof fn lemma_parse_hex_bad(s: Seq<u8>, i: int)
    requires
        0 <= i < s.len(),
        hex_val(s[i]) is None,
    ensures
        forall|j: int| i < j <= s.len() ==> parse_hex(s.subrange(0, j)) is None,
    decreases s.len(),
{
    assert forall|j: int| i < j <= s.len() implies parse_hex(s.subrange(0, j)) is None by {
        lemma_parse_hex_bad_one(s, i, j);
    }
}

proof fn lemma_parse_hex_bad_one(s: Seq<u8>, i: int, j: int)
    requires
        0 <= i < j <= s.len(),
        hex_val(s[i]) is None,
    ensures
        parse_hex(s.subrange(0, j)) is None,
    decreases j,
{
    let t = s.subrange(0, j);
    if j == i + 1 {
        assert(t.last() == s[i]);
    } else {
        lemma_parse_hex_bad_one(s, i, j - 1);
        assert(t.drop_last() =~= s.subrange(0, j - 1));
    }
}

/// Extracts the payload bytes of one complete frame: the first eight
/// bytes must be hex digits, and the frame must hold exactly as many
/// payload bytes as they announce.
pub fn frame_payload(data: &Vec<u8>) -> (r: Result<Vec<u8>, Error>)
    ensures
        match r {
            Ok(v) => {
                &&& data@.len() >= 8
                &&& parse_hex(data@.subrange(0, 8)) == Some((data@.len() - 8) as nat)
                &&& v@ == data@.skip(8)
            },
            Err(e) => data@.len() < 8 || parse_hex(data@.subrange(0, 8)) is None || parse_hex(
                data@.subrange(0, 8),
            ) != Some((data@.len() - 8) as nat),
        },
{
    let total: usize = data.len();
    if total < 8 {
        return Err(Error::InvalidPayload(String::from_str("frame shorter than its header")));
    }
    let mut header: Vec<u8> = Vec::new();
    let mut i: usize = 0;
    while i < 8
        invariant
            i <= 8,
            data@.len() >= 8,
            header@ =~= data@.subrange(0, i as int),
        decreases 8 - i,
    {
        header.push(data[i]);
        i = i + 1;
    }
    assert(header@ =~= data@.subrange(0, 8));
    let announced = match parse_hex_bytes(header.as_slice()) {
        Some(v) => v,
        None => {
            return Err(
                Error::InvalidPayload(
                    String::from_str("first 8 bytes weren't a correct hexadecimal integer"),
                ),
            );
        },
    };
    if (total - 8) as u64 != announced {
        return Err(
            Error::InvalidPayload(String::from_str("frame length does not match its header")),
        );
    }
    let mut payload: Vec<u8> = Vec::new();
    let mut k: usize = 8;
    while k < total
        invariant
            8 <= k <= total,
            total == data@.len(),
            payload@ =~= data@.subrange(8, k as int),
        decreases total - k,
    {
        payload.push(data[k]);
        k = k + 1;
    }
    assert(payload@ =~= data@.skip(8));
    Ok(payload)
}

/// Relies on `String::from_utf8`: a returned string holds exactly the
/// given bytes, bytes that encode some character sequence always decode,
/// and invalid UTF-8 is refused.
#[verifier::external_body]
pub fn utf8_string(bytes: Vec<u8>) -> (r: Option<String>)
    ensures
        r matches Some(s) ==> vstd::utf8::encode_utf8(s@) == bytes@,
        (exists|cs: Seq<char>| vstd::utf8::encode_utf8(cs) == bytes@) ==> r is Some,
{
    String::from_utf8(bytes).ok()
}

/// UTF-8 decoding is unambiguous: two character sequences with the same
/// encoding are the same.  With `utf8_string`'s contract this closes the
/// frame round trip — decoding the payload of `frame_spec` of a message's
/// bytes gives back exactly that message.
pub proof fn lemma_utf8_unambiguous(a: Seq<char>, b: Seq<char>)
    requires
        vstd::utf8::encode_utf8(a) == vstd::utf8::encode_utf8(b),
    ensures
        a == b,
{
    vstd::utf8::encode_utf8_decode_utf8(a);
    vstd::utf8::encode_utf8_decode_utf8(b);
}

/// The daemon's command kinds.
#[derive(Debug, PartialEq, Eq, Structural)]
pub enum CommandType {
    Clone,
    HealthCheck,
    GetClones,
    AbortClone,
    CloneStatus,
}

/// The default `props` of a command that came without one.
pub fn default_prop() -> (r: String)
    ensures
        r@ == Seq::<char>::empty(),
{
    String::new()
}

/// One command frame's content.
#[derive(Debug)]
pub struct Command {
    pub type_: CommandType,
    pub props: String,
    pub keep_alive: bool,
}

/// The properties of a `Clone` command.
#[derive(Debug)]
pub struct CloneProp {
    pub session_id: String,
    pub link: String,
    pub dir_name: String,
    pub max_static_file_size: u64,
    pub download_static_resource_with_unknown_size: bool,
    /// Progress update interval in milliseconds.
    pub progress_update_interval: u64,
    /// Max levels of pages to download; 0 means the initial page and its
    /// resources only.
    pub max_level: u8,
    pub black_list_urls: Vec<String>,
    /// Abort the session when any resource but the first page fails.
    pub abort_on_download_error: bool,
}

/// The properties of an `AbortClone` command.
#[derive(Debug)]
pub struct AbortCloneProp {
    pub session_id: String,
}

/// The properties of a `CloneStatus` command.
#[derive(Debug)]
pub struct CloneStatusProp {
    pub session_id: String,
}

/// A failed command's response.
#[derive(Debug)]
pub struct Failure {
    pub msg: String,
}

/// A successful command's response.
#[derive(Debug)]
pub struct Success {
    pub msg: Option<String>,
}

/// A message attached to a file update.
#[derive(Debug)]
pub struct MessageContent {
    pub message: String,
    pub is_error: bool,
}

impl MessageContent {
    /// An explicit copy with the same value.
    pub fn duplicate(&self) -> (r: MessageContent)
        ensures
            r == *self,
    {
        MessageContent { message: self.message.clone(), is_error: self.is_error }
    }
}

/// One resource's state in a `CloneStatus` response.
#[derive(Debug)]
pub struct FileUpdate {
    pub file_name: String,
    pub bytes_written: u64,
    pub file_size: Option<u64>,
    pub message: Option<MessageContent>,
}

/// The `CloneStatus` response.
#[derive(Debug)]
pub struct CloneStatusResponse {
    pub completed: bool,
    pub updates: Vec<FileUpdate>,
}

/// The `GetClones` response.
#[derive(Debug)]
pub struct GetClonesResponse {
    pub clones: Vec<CloneInfo>,
}

/// One finished clone in a `GetClones` response.
#[derive(Debug)]
pub struct CloneInfo {
    pub title: String,
}

} // verus!
