//! The remote notification format: one frame per message, laid out as
//! bincode's standard encoding of a tagged variant.
use vstd::prelude::*;
use vstd::utf8::encode_utf8;
use vstd::string::StringSliceAdditionalSpecFns;

verus! {

/// Tag that the `ProcessExited` variant carries on the wire.
pub const PROCESS_EXITED_TAG: u32 = 0;

/// The `n` low bytes of `v`, least significant first.
pub open spec fn le_bytes(v: nat, n: nat) -> Seq<u8>
    decreases n,
{
    if n == 0 {
        seq![]
    } else {
        seq![(v % 256) as u8] + le_bytes(v / 256, (n - 1) as nat)
    }
}

/// bincode's variable-length form of an unsigned integer below 2^64.
pub open spec fn varint(v: nat) -> Seq<u8> {
    if v <= 250 {
        seq![v as u8]
    } else if v <= 0xffff {
        seq![251u8] + le_bytes(v, 2)
    } else if v <= 0xffff_ffff {
        seq![252u8] + le_bytes(v, 4)
    } else {
        seq![253u8] + le_bytes(v, 8)
    }
}

/// A string on the wire: its UTF-8 length as a varint, then its UTF-8 bytes.
pub open spec fn str_frame(s: Seq<char>) -> Seq<u8> {
    varint(encode_utf8(s).len()) + encode_utf8(s)
}

/// `b` begins with `prefix`.
pub open spec fn starts_with(b: Seq<u8>, prefix: Seq<u8>) -> bool {
    prefix.len() <= b.len() && b.subrange(0, prefix.len() as int) == prefix
}

/// A tagged variant with one string field on the wire.
pub open spec fn tagged_frame(tag: u32, s: Seq<char>) -> Seq<u8> {
    varint(tag as nat) + str_frame(s)
}

/// The payload of a notification.
#[derive(Debug)]
pub enum MessageVariant {
    ProcessExited(String),
}

/// A notification exchanged with the remote peer.
#[derive(Debug)]
pub struct Message {
    pub variant: MessageVariant,
}

impl Message {
    /// The task id that the message is about.
    pub open spec fn task_id(&self) -> Seq<char> {
        match self.variant {
            MessageVariant::ProcessExited(id) => id@,
        }
    }

    /// A `ProcessExited` notification for `id`.
    pub fn process_exited(id: String) -> (r: Message)
        ensures
            r.task_id() == id@,
    {
        Message { variant: MessageVariant::ProcessExited(id) }
    }
}

/// The frame that carries `m`.
pub open spec fn message_frame(m: Message) -> Seq<u8> {
    match m.variant {
        MessageVariant::ProcessExited(id) => tagged_frame(PROCESS_EXITED_TAG, id@),
    }
}

/// Why a frame could not be read.
#[derive(Debug)]
pub enum WireError {
    /// The bytes are not a tag followed by a string.
    Malformed(bincode::error::DecodeError),
    /// The tag names no known variant.
    UnknownVariant(u32),
}

#[verifier::external_type_specification]
#[verifier::external_body]
pub struct ExDecodeError(bincode::error::DecodeError);

/// Relies on `bincode::encode_to_vec` with `config::standard()` on a
/// `(u32, &str)` pair: each field in order, the integer as a varint, the
/// string as its byte length as a varint followed by its UTF-8 bytes. Writing
/// into a `Vec` has no failing path.
#[verifier::external_body]
fn encode_tagged(tag: u32, s: &str) -> (r: Vec<u8>)
    ensures
        r@ == tagged_frame(tag, s@),
{
    bincode::encode_to_vec((tag, s), bincode::config::standard()).expect("encoding into a Vec")
}

/// Most bytes that reading one frame may claim: as much as one read of the
/// listener brings.
pub const DECODE_LIMIT: usize = 2048;

/// What reading a pair claims against `DECODE_LIMIT`: four bytes for the tag,
/// eight for the length, and the string's bytes.
pub open spec fn claimed(t: Seq<char>) -> nat {
    12 + encode_utf8(t).len()
}

/// The little-endian value of `b`.
pub open spec fn le_value(b: Seq<u8>) -> nat
    decreases b.len(),
{
    if b.len() == 0 {
        0
    } else {
        b[0] as nat + 256 * le_value(b.skip(1))
    }
}

/// `x` is one of the forms in which bincode reads the integer `v`; `wide`
/// admits the eight-byte form.
pub open spec fn reads_as(x: Seq<u8>, v: nat, wide: bool) -> bool {
    ||| (x.len() == 1 && x[0] <= 250 && x[0] as nat == v)
    ||| (x.len() == 3 && x[0] == 251 && le_value(x.skip(1)) == v)
    ||| (x.len() == 5 && x[0] == 252 && le_value(x.skip(1)) == v)
    ||| (wide && x.len() == 9 && x[0] == 253 && le_value(x.skip(1)) == v)
}

/// `b` is, in some width that bincode accepts, a frame of the pair `(tag, s)`.
pub open spec fn is_frame_of(b: Seq<u8>, tag: u32, s: Seq<char>) -> bool {
    exists|i: int, j: int|
        #![trigger b.subrange(0, i), b.subrange(i, j)]
        0 < i <= j <= b.len() && reads_as(b.subrange(0, i), tag as nat, false) && reads_as(
            b.subrange(i, j),
            encode_utf8(s).len(),
            true,
        ) && b.subrange(j, b.len() as int) == encode_utf8(s)
}

/// `b` begins with a frame of the pair `(tag, s)`.
pub open spec fn frame_prefix(b: Seq<u8>, tag: u32, s: Seq<char>) -> bool {
    exists|n: int| 0 <= n <= b.len() && #[trigger] is_frame_of(b.take(n), tag, s)
}

/// What reading a pair from `b` gives: a pair only when `b` begins with a
/// frame of it, and the pair of a canonical frame within the limit.
pub open spec fn reads_pair(
    b: Seq<u8>,
    r: Result<(u32, String, usize), bincode::error::DecodeError>,
) -> bool {
    &&& (r matches Ok((g, s, n)) ==> n <= b.len() && is_frame_of(b.take(n as int), g, s@))
    &&& forall|tag: u32, t: Seq<char>|
        #[trigger] starts_with(b, tagged_frame(tag, t)) && claimed(t) <= DECODE_LIMIT ==> (r matches Ok(
            (g, s, n),
        ) && g == tag && s@ == t && n == tagged_frame(tag, t).len())
}

/// Relies on `bincode::decode_from_slice` with `config::standard()` and a
/// limit of `DECODE_LIMIT` claimed bytes, for a `(u32, String)` pair: the
/// tag is read as a varint of at most five bytes, the length as one of at
/// most nine, then that many bytes that must be UTF-8; the count returned is
/// the number of bytes read. A length over the limit is an error, never an
/// allocation.
#[verifier::external_body]
fn decode_tagged(b: &[u8]) -> (r: Result<(u32, String, usize), bincode::error::DecodeError>)
    ensures
        reads_pair(b@, r),
{
    let config = bincode::config::standard().with_limit::<DECODE_LIMIT>();
    match bincode::decode_from_slice::<(u32, String), _>(b, config) {
        Ok(((tag, s), n)) => Ok((tag, s, n)),
        Err(e) => Err(e),
    }
}

/// The frame that carries `m`.
pub fn encode_message(m: &Message) -> (r: Vec<u8>)
    ensures
        r@ == message_frame(*m),
{
    match &m.variant {
        MessageVariant::ProcessExited(id) => encode_tagged(PROCESS_EXITED_TAG, id.as_str()),
    }
}

/// `r` is what reading a message from `b` may give: a message only when `b`
/// begins with a frame of it, and bytes that start with the frame of a
/// message within the limit read as a message about the same task.
pub open spec fn decodes_to(b: Seq<u8>, r: Result<Message, WireError>) -> bool {
    &&& (r matches Ok(d) ==> frame_prefix(b, PROCESS_EXITED_TAG, d.task_id()))
    &&& forall|id: Seq<char>|
        #[trigger] starts_with(b, tagged_frame(PROCESS_EXITED_TAG, id)) && claimed(id)
            <= DECODE_LIMIT ==> (r matches Ok(d) && d.task_id() == id)
    &&& (r matches Err(WireError::UnknownVariant(t)) ==> t != PROCESS_EXITED_TAG)
}

/// Reads one message from the start of `b`; bytes after the frame are ignored.
pub fn decode_message(b: &[u8]) -> (r: Result<Message, WireError>)
    ensures
        decodes_to(b@, r),
{
    match decode_tagged(b) {
        Ok((tag, s, n)) => {
            if tag == PROCESS_EXITED_TAG {
                assert(is_frame_of(b@.take(n as int), tag, s@));
                Ok(Message { variant: MessageVariant::ProcessExited(s) })
            } else {
                Err(WireError::UnknownVariant(tag))
            }
        },
        Err(e) => Err(WireError::Malformed(e)),
    }
}

/// What the listener does with the outcome of one read of a connection.
#[derive(Debug)]
pub enum Received {
    /// End of stream or a failed read: go back to accepting connections.
    Closed,
    /// A message to hand to the router.
    Forward(Message),
    /// A frame that could not be read: log it and keep reading.
    Dropped(WireError),
}

impl Received {
    /// A forwarded message as `Ok`, a dropped frame as `Err`; `Closed`, which
    /// carries no frame, maps to an arbitrary error.
    pub open spec fn as_result(self) -> Result<Message, WireError> {
        match self {
            Received::Forward(m) => Ok(m),
            Received::Dropped(e) => Err(e),
            Received::Closed => Err(WireError::UnknownVariant(1u32)),
        }
    }
}

/// Decides what one read means; `count` is how many bytes the read put at the
/// front of `buf`, or `None` when the read failed.
pub fn on_read(buf: &[u8], count: Option<usize>) -> (r: Received)
    requires
        count matches Some(n) ==> n <= buf@.len(),
    ensures
        r is Closed <==> (count is None || count == Some(0usize)),
        count is Some && count->Some_0 > 0 ==> (r is Forward || r is Dropped) && decodes_to(
            buf@.take(count->Some_0 as int),
            r.as_result(),
        ),
{
    match count {
        None => Received::Closed,
        Some(n) => {
            if n == 0 {
                Received::Closed
            } else {
                match decode_message(vstd::slice::slice_subrange(buf, 0, n)) {
                    Ok(m) => Received::Forward(m),
                    Err(e) => Received::Dropped(e),
                }
            }
        },
    }
}

/// Encoding a message and reading the bytes back gives a message about the
/// same task, also when more bytes follow the frame, for every id within the
/// read limit.
pub proof fn lemma_round_trip(m: Message, frame: Seq<u8>, rest: Seq<u8>, r: Result<Message, WireError>)
    requires
        frame == message_frame(m),
        claimed(m.task_id()) <= DECODE_LIMIT,
        decodes_to(frame + rest, r),
    ensures
        r matches Ok(d) && d.task_id() == m.task_id(),
{
    assert((frame + rest).subrange(0, frame.len() as int) =~= frame);
    assert(starts_with(frame + rest, tagged_frame(PROCESS_EXITED_TAG, m.task_id())));
}

} // verus!
