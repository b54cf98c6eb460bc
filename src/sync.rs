//! Framing of the sync protocol's wire messages: a tag selects `sync`,
//! `awareness`, `auth` or `query_awareness`; any other top-level tag is
//! rejected. Inside a `sync` frame a secondary tag selects `step1`, `step2`
//! or `update`; any other secondary tag passes through as a custom frame
//! carrying that tag and its buffer. Tags and lengths are LEB128 integers of
//! at most five bytes.
use vstd::prelude::*;
use vstd::utf8::*;

use crate::error::Error;
use vstd::slice::{slice_subrange, slice_to_vec};

use crate::layout::{leading_var, var_within};
use crate::native::{buf_bytes, lead_var, rest, utf8_to_string, var_bytes, write_buf, write_var_u32};

verus! {

pub const MSG_SYNC: u8 = 0;
pub const MSG_AWARENESS: u8 = 1;
pub const MSG_AUTH: u8 = 2;
pub const MSG_QUERY_AWARENESS: u8 = 3;
pub const MSG_SYNC_STEP_1: u8 = 0;
pub const MSG_SYNC_STEP_2: u8 = 1;
pub const MSG_SYNC_UPDATE: u8 = 2;
pub const PERMISSION_DENIED: u8 = 0;
pub const PERMISSION_GRANTED: u8 = 1;

/// A message of the document-sync sub-protocol.
#[derive(Clone, Debug, PartialEq, Eq)]
pub enum SyncMessage {
    /// A state vector: "send me what I am missing".
    SyncStep1(Vec<u8>),
    /// The answer to a step 1: an update.
    SyncStep2(Vec<u8>),
    /// An incremental update.
    Update(Vec<u8>),
}

/// A top-level frame of the sync protocol.
#[derive(Clone, Debug, PartialEq, Eq)]
pub enum Message {
    Sync(SyncMessage),
    /// An encoded awareness update.
    Awareness(Vec<u8>),
    /// Permission granted (`None`) or denied with a reason.
    Auth(Option<String>),
    QueryAwareness,
    /// A frame of an application-defined tag.
    Custom(u32, Vec<u8>),
}

/// What a [`Message`] says, as mathematical values.
pub enum MessageView {
    Sync(u8, Seq<u8>),
    Awareness(Seq<u8>),
    Auth(Option<Seq<char>>),
    QueryAwareness,
    Custom(nat, Seq<u8>),
}

impl SyncMessage {
    pub open spec fn tag(self) -> u8 {
        match self {
            SyncMessage::SyncStep1(_) => MSG_SYNC_STEP_1,
            SyncMessage::SyncStep2(_) => MSG_SYNC_STEP_2,
            SyncMessage::Update(_) => MSG_SYNC_UPDATE,
        }
    }

    pub open spec fn payload(self) -> Seq<u8> {
        match self {
            SyncMessage::SyncStep1(d) => d@,
            SyncMessage::SyncStep2(d) => d@,
            SyncMessage::Update(d) => d@,
        }
    }
}

impl View for Message {
    type V = MessageView;

    open spec fn view(&self) -> MessageView {
        match self {
            Message::Sync(s) => MessageView::Sync(s.tag(), s.payload()),
            Message::Awareness(d) => MessageView::Awareness(d@),
            Message::Auth(None) => MessageView::Auth(None),
            Message::Auth(Some(r)) => MessageView::Auth(Some(r@)),
            Message::QueryAwareness => MessageView::QueryAwareness,
            Message::Custom(t, d) => MessageView::Custom(*t as nat, d@),
        }
    }
}

/// The bytes of a frame.
pub open spec fn frame(m: MessageView) -> Seq<u8> {
    match m {
        MessageView::Sync(t, d) => var_bytes(MSG_SYNC as nat) + var_bytes(t as nat) + buf_bytes(d),
        MessageView::Awareness(d) => var_bytes(MSG_AWARENESS as nat) + buf_bytes(d),
        MessageView::Auth(None) => var_bytes(MSG_AUTH as nat) + var_bytes(PERMISSION_GRANTED as nat),
        MessageView::Auth(Some(r)) => var_bytes(MSG_AUTH as nat) + var_bytes(PERMISSION_DENIED as nat)
            + buf_bytes(encode_utf8(r)),
        MessageView::QueryAwareness => var_bytes(MSG_QUERY_AWARENESS as nat),
        MessageView::Custom(t, d) => var_bytes(MSG_SYNC as nat) + var_bytes(t) + buf_bytes(d),
    }
}

/// A frame that decoding gives back: sync sub-tags are known ones, custom
/// tags lie outside them and fit in a byte, and buffers fit a 32-bit length.
pub open spec fn well_formed(m: MessageView) -> bool {
    match m {
        MessageView::Sync(t, d) => t <= MSG_SYNC_UPDATE && d.len() <= u32::MAX,
        MessageView::Awareness(d) => d.len() <= u32::MAX,
        MessageView::Auth(Some(r)) => encode_utf8(r).len() <= u32::MAX,
        MessageView::Auth(None) => true,
        MessageView::QueryAwareness => true,
        MessageView::Custom(t, d) => MSG_SYNC_UPDATE < t <= 255 && d.len() <= u32::MAX,
    }
}

/// The byte-sized LEB128 value at `pos` and the position after it.
pub open spec fn var_at(s: Seq<u8>, pos: nat) -> Option<(nat, nat)> {
    match var_within(s, pos, 5) {
        Some((v, p)) => if v <= 255 { Some((v, p)) } else { None },
        None => None,
    }
}

/// The length-prefixed buffer at `pos` and the position after it.
pub open spec fn buf_at(s: Seq<u8>, pos: nat) -> Option<(Seq<u8>, nat)> {
    match var_within(s, pos, 5) {
        Some((n, p)) => if n <= u32::MAX && p + n <= s.len() {
            Some((s.subrange(p as int, (p + n) as int), p + n))
        } else {
            None
        },
        None => None,
    }
}

/// Why a frame does not decode.
pub enum FrameFault {
    /// A tag, length or buffer is missing, too long or overruns the input.
    Malformed,
    /// The top-level tag is none of the known ones.
    UnknownTag(nat),
    /// The reason of an `auth` frame is not UTF-8.
    BadText,
}

/// The frame whose `sync` secondary tag stands at `pos`.
pub open spec fn parse_sync_at(s: Seq<u8>, pos: nat) -> Result<MessageView, FrameFault> {
    match var_at(s, pos) {
        Some((t, p)) => match buf_at(s, p) {
            Some((d, _)) => if t <= MSG_SYNC_UPDATE {
                Ok(MessageView::Sync(t as u8, d))
            } else {
                Ok(MessageView::Custom(t, d))
            },
            None => Err(FrameFault::Malformed),
        },
        None => Err(FrameFault::Malformed),
    }
}

/// The frame at the start of `s`, or why there is none.
pub open spec fn parse_frame(s: Seq<u8>) -> Result<MessageView, FrameFault> {
    match var_at(s, 0) {
        Some((tag, p)) => if tag == MSG_SYNC {
            parse_sync_at(s, p)
        } else if tag == MSG_AWARENESS {
            match buf_at(s, p) {
                Some((d, _)) => Ok(MessageView::Awareness(d)),
                None => Err(FrameFault::Malformed),
            }
        } else if tag == MSG_AUTH {
            match var_at(s, p) {
                Some((perm, p2)) => if perm == PERMISSION_DENIED {
                    match buf_at(s, p2) {
                        Some((d, _)) => if valid_utf8(d) {
                            Ok(MessageView::Auth(Some(decode_utf8(d))))
                        } else {
                            Err(FrameFault::BadText)
                        },
                        None => Err(FrameFault::Malformed),
                    }
                } else {
                    Ok(MessageView::Auth(None))
                },
                None => Err(FrameFault::Malformed),
            }
        } else if tag == MSG_QUERY_AWARENESS {
            Ok(MessageView::QueryAwareness)
        } else {
            Err(FrameFault::UnknownTag(tag))
        },
        None => Err(FrameFault::Malformed),
    }
}

/// The error a decoding fault is reported as.
pub open spec fn fault_error(r: Result<Message, Error>, f: FrameFault) -> bool {
    match f {
        FrameFault::Malformed => r matches Err(Error::MalformedFrame),
        FrameFault::UnknownTag(t) => r matches Err(Error::UnexpectedTag(u)) && u as nat == t,
        FrameFault::BadText => r matches Err(Error::InvalidUtf8),
    }
}

/// The decoding outcome `r` is the one `p` describes.
pub open spec fn decoded_as(r: Result<Message, Error>, p: Result<MessageView, FrameFault>) -> bool {
    match p {
        Ok(v) => r matches Ok(m) && m@ == v,
        Err(f) => fault_error(r, f),
    }
}

/// Writes a sync message into `out`.
pub fn encode_sync_message(msg: &SyncMessage, out: &mut Vec<u8>)
    ensures
        final(out)@ == old(out)@ + var_bytes(msg.tag() as nat) + buf_bytes(msg.payload()),
{
    match msg {
        SyncMessage::SyncStep1(d) => {
            write_var_u32(out, MSG_SYNC_STEP_1 as u32);
            write_buf(out, d.as_slice());
        },
        SyncMessage::SyncStep2(d) => {
            write_var_u32(out, MSG_SYNC_STEP_2 as u32);
            write_buf(out, d.as_slice());
        },
        SyncMessage::Update(d) => {
            write_var_u32(out, MSG_SYNC_UPDATE as u32);
            write_buf(out, d.as_slice());
        },
    }
    assert(final(out)@ =~= old(out)@ + var_bytes(msg.tag() as nat) + buf_bytes(msg.payload()));
}

/// Encodes a frame.
pub fn encode_message(msg: &Message) -> (r: Vec<u8>)
    ensures
        r@ == frame(msg@),
{
    let mut out: Vec<u8> = Vec::new();
    match msg {
        Message::Sync(s) => {
            write_var_u32(&mut out, MSG_SYNC as u32);
            encode_sync_message(s, &mut out);
        },
        Message::Awareness(d) => {
            write_var_u32(&mut out, MSG_AWARENESS as u32);
            write_buf(&mut out, d.as_slice());
        },
        Message::Auth(reason) => {
            write_var_u32(&mut out, MSG_AUTH as u32);
            match reason {
                Some(text) => {
                    write_var_u32(&mut out, PERMISSION_DENIED as u32);
                    write_buf(&mut out, text.as_str().as_bytes());
                },
                None => {
                    write_var_u32(&mut out, PERMISSION_GRANTED as u32);
                },
            }
        },
        Message::QueryAwareness => {
            write_var_u32(&mut out, MSG_QUERY_AWARENESS as u32);
        },
        Message::Custom(tag, d) => {
            write_var_u32(&mut out, MSG_SYNC as u32);
            write_var_u32(&mut out, *tag);
            write_buf(&mut out, d.as_slice());
        },
    }
    assert(out@ =~= frame(msg@));
    out
}

/// Reads a byte-sized integer at `pos`.
fn read_tag(msg: &[u8], pos: usize) -> (r: Result<(u8, usize), Error>)
    requires
        pos <= msg@.len(),
    ensures
        var_at(msg@, pos as nat) matches Some((v, p)) ==> r matches Ok((b, q)) && b as nat == v && q as nat == p,
        var_at(msg@, pos as nat) is None ==> r matches Err(Error::MalformedFrame),
        r matches Ok((_, q)) ==> q <= msg@.len(),
{
    match leading_var(msg, pos, 5) {
        Some((v, q)) => if v <= 255 {
            Ok((v as u8, q))
        } else {
            Err(Error::MalformedFrame)
        },
        None => Err(Error::MalformedFrame),
    }
}

/// Reads a length-prefixed buffer at `pos`.
fn read_bytes(msg: &[u8], pos: usize) -> (r: Result<(Vec<u8>, usize), Error>)
    requires
        pos <= msg@.len(),
    ensures
        buf_at(msg@, pos as nat) matches Some((d, p)) ==> r matches Ok((o, q)) && o@ == d && q as nat == p,
        buf_at(msg@, pos as nat) is None ==> r matches Err(Error::MalformedFrame),
{
    match leading_var(msg, pos, 5) {
        Some((n, q)) => if n <= u32::MAX as u128 && n <= (msg.len() - q) as u128 {
            let end = q + n as usize;
            let d = slice_to_vec(slice_subrange(msg, q, end));
            Ok((d, end))
        } else {
            Err(Error::MalformedFrame)
        },
        None => Err(Error::MalformedFrame),
    }
}

/// Decodes the `sync` frame whose secondary tag stands at `pos`: a known
/// secondary tag gives a sync message, any other a custom frame.
pub fn decode_sync_message(msg: &[u8], pos: usize) -> (r: Result<Message, Error>)
    requires
        pos <= msg@.len(),
    ensures
        decoded_as(r, parse_sync_at(msg@, pos as nat)),
{
    let (tag, p) = read_tag(msg, pos)?;
    let (d, _) = read_bytes(msg, p)?;
    if tag == MSG_SYNC_STEP_1 {
        Ok(Message::Sync(SyncMessage::SyncStep1(d)))
    } else if tag == MSG_SYNC_STEP_2 {
        Ok(Message::Sync(SyncMessage::SyncStep2(d)))
    } else if tag == MSG_SYNC_UPDATE {
        Ok(Message::Sync(SyncMessage::Update(d)))
    } else {
        Ok(Message::Custom(tag as u32, d))
    }
}

/// Decodes a frame: exactly the frame `parse_frame` describes, or the error
/// for its fault (an unknown top-level tag is a protocol violation).
pub fn decode_message(msg: &[u8]) -> (r: Result<Message, Error>)
    ensures
        decoded_as(r, parse_frame(msg@)),
{
    let (tag, p) = read_tag(msg, 0)?;
    if tag == MSG_SYNC {
        decode_sync_message(msg, p)
    } else if tag == MSG_AWARENESS {
        let (d, _) = read_bytes(msg, p)?;
        Ok(Message::Awareness(d))
    } else if tag == MSG_AUTH {
        let (perm, p2) = read_tag(msg, p)?;
        if perm == PERMISSION_DENIED {
            let (d, _) = read_bytes(msg, p2)?;
            match utf8_to_string(d) {
                Some(reason) => {
                    proof {
                        encode_utf8_decode_utf8(reason@);
                    }
                    Ok(Message::Auth(Some(reason)))
                },
                None => Err(Error::InvalidUtf8),
            }
        } else {
            Ok(Message::Auth(None))
        }
    } else if tag == MSG_QUERY_AWARENESS {
        Ok(Message::QueryAwareness)
    } else {
        Err(Error::UnexpectedTag(tag))
    }
}

/// `128` to the power `k`.
pub open spec fn pow128(k: nat) -> nat
    decreases k,
{
    if k == 0 {
        1
    } else {
        128 * pow128((k - 1) as nat)
    }
}

/// Reading a LEB128 value back gives the value and the length written.
pub proof fn lemma_lead_var(n: nat, t: Seq<u8>)
    ensures
        lead_var(var_bytes(n) + t) == Some((n, var_bytes(n).len())),
    decreases n,
{
    let s = var_bytes(n) + t;
    if n < 128 {
        assert(s[0] == n as u8);
    } else {
        lemma_lead_var(n / 128, t);
        assert(s.drop_first() =~= var_bytes(n / 128) + t);
        assert(s[0] == ((n % 128) + 128) as u8);
    }
}

/// A value below `128^k` takes at most `k` bytes.
pub proof fn lemma_var_len(n: nat, k: nat)
    requires
        k >= 1,
        n < pow128(k),
    ensures
        var_bytes(n).len() <= k,
    decreases k,
{
    if n >= 128 {
        assert(var_bytes(n) == seq![((n % 128) + 128) as u8] + var_bytes(n / 128));
        assert(n / 128 < pow128((k - 1) as nat));
        if k == 1 {
            assert(pow128(0) == 1);
        } else {
            lemma_var_len(n / 128, (k - 1) as nat);
        }
    }
}

/// A 32-bit value takes at most five bytes.
pub proof fn lemma_var_len_u32(n: nat)
    requires
        n <= u32::MAX,
    ensures
        var_bytes(n).len() <= 5,
{
    reveal_with_fuel(pow128, 6);
    assert(pow128(5) == 34359738368);
    lemma_var_len(n, 5);
}

proof fn lemma_rest_advance(s: Seq<u8>, pos: nat, a: Seq<u8>, b: Seq<u8>)
    requires
        pos <= s.len(),
        rest(s, pos as int) == a + b,
    ensures
        pos + a.len() <= s.len(),
        rest(s, (pos + a.len()) as int) == b,
{
    assert(rest(s, pos as int).len() == s.len() - pos);
    assert(rest(s, (pos + a.len()) as int) =~= b) by {
        assert forall|i: int| 0 <= i < b.len() implies #[trigger] b[i] == s[pos + a.len() + i] by {
            assert((a + b)[a.len() + i] == b[i]);
            assert(rest(s, pos as int)[a.len() + i] == s[pos + a.len() + i]);
        }
    }
}

proof fn lemma_var_at(s: Seq<u8>, pos: nat, n: nat, tail: Seq<u8>)
    requires
        pos <= s.len(),
        n <= 255,
        rest(s, pos as int) == var_bytes(n) + tail,
    ensures
        var_at(s, pos) == Some((n, pos + var_bytes(n).len())),
        pos + var_bytes(n).len() <= s.len(),
        rest(s, (pos + var_bytes(n).len()) as int) == tail,
{
    assert(rest(s, pos as int).len() == s.len() - pos);
    lemma_lead_var(n, tail);
    lemma_var_len_u32(n);
    lemma_rest_advance(s, pos, var_bytes(n), tail);
}

proof fn lemma_buf_at(s: Seq<u8>, pos: nat, d: Seq<u8>, tail: Seq<u8>)
    requires
        pos <= s.len(),
        d.len() <= u32::MAX,
        rest(s, pos as int) == buf_bytes(d) + tail,
    ensures
        buf_at(s, pos) == Some((d, pos + buf_bytes(d).len())),
{
    let r = rest(s, pos as int);
    assert(r.len() == s.len() - pos);
    assert(r =~= var_bytes(d.len()) + (d + tail));
    lemma_lead_var(d.len(), d + tail);
    lemma_var_len_u32(d.len());
    let l = var_bytes(d.len()).len();
    assert(r.subrange(l as int, (l + d.len()) as int) =~= d);
    assert(s.subrange((pos + l) as int, (pos + l + d.len()) as int) =~= d);
}

proof fn lemma_round_trip_sync(st: u8, d: Seq<u8>, t: Seq<u8>)
    requires
        st <= MSG_SYNC_UPDATE,
        d.len() <= u32::MAX,
    ensures
        parse_frame(frame(MessageView::Sync(st, d)) + t) == Ok::<MessageView, FrameFault>(MessageView::Sync(st, d)),
{
    let s = frame(MessageView::Sync(st, d)) + t;
    assert(rest(s, 0) =~= s);
    assert(s =~= var_bytes(MSG_SYNC as nat) + (var_bytes(st as nat) + (buf_bytes(d) + t)));
    lemma_var_at(s, 0, MSG_SYNC as nat, var_bytes(st as nat) + (buf_bytes(d) + t));
    let p = var_bytes(MSG_SYNC as nat).len();
    lemma_var_at(s, p, st as nat, buf_bytes(d) + t);
    lemma_buf_at(s, p + var_bytes(st as nat).len(), d, t);
    assert((st as nat) as u8 == st);
}

proof fn lemma_round_trip_awareness(d: Seq<u8>, t: Seq<u8>)
    requires
        d.len() <= u32::MAX,
    ensures
        parse_frame(frame(MessageView::Awareness(d)) + t) == Ok::<MessageView, FrameFault>(MessageView::Awareness(d)),
{
    let s = frame(MessageView::Awareness(d)) + t;
    assert(rest(s, 0) =~= s);
    assert(s =~= var_bytes(MSG_AWARENESS as nat) + (buf_bytes(d) + t));
    lemma_var_at(s, 0, MSG_AWARENESS as nat, buf_bytes(d) + t);
    lemma_buf_at(s, var_bytes(MSG_AWARENESS as nat).len(), d, t);
}

proof fn lemma_round_trip_granted(t: Seq<u8>)
    ensures
        parse_frame(frame(MessageView::Auth(None)) + t) == Ok::<MessageView, FrameFault>(MessageView::Auth(None)),
{
    let s = frame(MessageView::Auth(None)) + t;
    assert(rest(s, 0) =~= s);
    assert(s =~= var_bytes(MSG_AUTH as nat) + (var_bytes(PERMISSION_GRANTED as nat) + t));
    lemma_var_at(s, 0, MSG_AUTH as nat, var_bytes(PERMISSION_GRANTED as nat) + t);
    lemma_var_at(s, var_bytes(MSG_AUTH as nat).len(), PERMISSION_GRANTED as nat, t);
}

proof fn lemma_round_trip_denied(r: Seq<char>, t: Seq<u8>)
    requires
        encode_utf8(r).len() <= u32::MAX,
    ensures
        parse_frame(frame(MessageView::Auth(Some(r))) + t) == Ok::<MessageView, FrameFault>(MessageView::Auth(Some(r))),
{
    let e = encode_utf8(r);
    let s = frame(MessageView::Auth(Some(r))) + t;
    assert(rest(s, 0) =~= s);
    assert(s =~= var_bytes(MSG_AUTH as nat) + (var_bytes(PERMISSION_DENIED as nat) + (buf_bytes(e) + t)));
    lemma_var_at(s, 0, MSG_AUTH as nat, var_bytes(PERMISSION_DENIED as nat) + (buf_bytes(e) + t));
    let p = var_bytes(MSG_AUTH as nat).len();
    lemma_var_at(s, p, PERMISSION_DENIED as nat, buf_bytes(e) + t);
    lemma_buf_at(s, p + var_bytes(PERMISSION_DENIED as nat).len(), e, t);
    encode_utf8_valid_utf8(r);
    encode_utf8_decode_utf8(r);
}

proof fn lemma_round_trip_query(t: Seq<u8>)
    ensures
        parse_frame(frame(MessageView::QueryAwareness) + t) == Ok::<MessageView, FrameFault>(MessageView::QueryAwareness),
{
    let s = frame(MessageView::QueryAwareness) + t;
    assert(rest(s, 0) =~= s);
    assert(s =~= var_bytes(MSG_QUERY_AWARENESS as nat) + t);
    lemma_var_at(s, 0, MSG_QUERY_AWARENESS as nat, t);
}

proof fn lemma_round_trip_custom(tag: nat, d: Seq<u8>, t: Seq<u8>)
    requires
        MSG_SYNC_UPDATE < tag <= 255,
        d.len() <= u32::MAX,
    ensures
        parse_frame(frame(MessageView::Custom(tag, d)) + t) == Ok::<MessageView, FrameFault>(MessageView::Custom(tag, d)),
{
    let s = frame(MessageView::Custom(tag, d)) + t;
    assert(rest(s, 0) =~= s);
    assert(s =~= var_bytes(MSG_SYNC as nat) + (var_bytes(tag) + (buf_bytes(d) + t)));
    lemma_var_at(s, 0, MSG_SYNC as nat, var_bytes(tag) + (buf_bytes(d) + t));
    let p = var_bytes(MSG_SYNC as nat).len();
    lemma_var_at(s, p, tag, buf_bytes(d) + t);
    lemma_buf_at(s, p + var_bytes(tag).len(), d, t);
}

/// Decoding the bytes of a well-formed frame, whatever follows them, gives
/// the frame back.
pub proof fn lemma_frame_round_trip(m: MessageView, t: Seq<u8>)
    requires
        well_formed(m),
    ensures
        parse_frame(frame(m) + t) == Ok::<MessageView, FrameFault>(m),
{
    match m {
        MessageView::Sync(st, d) => lemma_round_trip_sync(st, d, t),
        MessageView::Awareness(d) => lemma_round_trip_awareness(d, t),
        MessageView::Auth(None) => lemma_round_trip_granted(t),
        MessageView::Auth(Some(r)) => lemma_round_trip_denied(r, t),
        MessageView::QueryAwareness => lemma_round_trip_query(t),
        MessageView::Custom(tag, d) => lemma_round_trip_custom(tag, d, t),
    }
}

} // verus!
