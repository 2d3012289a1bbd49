//! The messages between a client and the daemon, and their framing.
//!
//! A frame is a length in four bytes, most significant first, and a payload. The payload is
//! JSON, or output of a terminal behind a tag that no JSON begins with.
use crate::error::Error;
use crate::text::decimal;
use crate::service::model::{TerminalId, TerminalInfo};
use std::collections::HashMap;
use std::path::PathBuf;
use vstd::arithmetic::power::pow;
use vstd::prelude::*;

verus! {

/// The version of the messages.
pub const PROTOCOL_VERSION: u32 = 7;

/// How much a frame may carry.
pub const MAX_FRAME_BYTES: usize = 8_388_608;

/// The first byte of a payload that is output.
pub const OUTPUT_FRAME_TAG: u8 = 0;

/// What an attachment may do with its terminal.
#[derive(Clone, Copy, Debug, PartialEq, Eq, Structural)]
pub enum AttachmentRole {
    /// Sends input and sets the size.
    Controller,
    /// Only watches.
    Observer,
}

/// A request with the token that shows the right to make it.
#[derive(Debug)]
pub struct Envelope {
    pub token: String,
    pub request: Request,
}

/// What the daemon is asked.
#[allow(inconsistent_fields)]
#[derive(Debug)]
pub enum Request {
    Ping,
    Create {
        program: String,
        args: Vec<String>,
        cwd: PathBuf,
        title: String,
        group_id: String,
        env: HashMap<String, String>,
        cols: u16,
        rows: u16,
    },
    List,
    Write { id: TerminalId, attachment_id: Option<String>, data_base64: String },
    Resize { id: TerminalId, attachment_id: Option<String>, cols: u16, rows: u16 },
    Control { id: TerminalId, attachment_id: String, cols: u16, rows: u16 },
    Input { id: TerminalId, attachment_id: String, cols: u16, rows: u16, data_base64: String },
    Snapshot { id: TerminalId },
    ReadRows { id: TerminalId, rows: Option<u16> },
    Replay { id: TerminalId, offset: u64 },
    Subscribe {
        id: TerminalId,
        offset: u64,
        attachment_id: String,
        role: AttachmentRole,
        takeover: bool,
    },
    Terminate { id: TerminalId },
    Shutdown,
    Own { instance_id: String, ticket: Option<String> },
    PrepareHandoff,
}

/// What the daemon answers, and what it tells those who watch a terminal.
#[allow(inconsistent_fields)]
#[derive(Debug)]
pub enum Response {
    Pong { instance_id: String, pid: u32, protocol: u32 },
    Created { terminal: TerminalInfo },
    Terminals { terminals: Vec<TerminalInfo> },
    /// Nothing but success.
    Done,
    Snapshot {
        terminal: TerminalInfo,
        text: String,
        checkpoint_base64: String,
        cursor_x: u16,
        cursor_y: u16,
    },
    Rows { terminal: TerminalInfo, lines: Vec<String>, cursor_x: u16, cursor_y: u16 },
    Replay {
        requested_offset: u64,
        available_offset: u64,
        end_offset: u64,
        truncated: bool,
        data_base64: String,
    },
    Attached {
        terminal: TerminalInfo,
        role: AttachmentRole,
        generation: u64,
        requested_offset: u64,
        available_offset: u64,
        end_offset: u64,
        truncated: bool,
        replay_base64: String,
    },
    Resized { cols: u16, rows: u16, generation: u64, checkpoint_base64: String },
    Exited { exit_code: Option<u32>, final_offset: u64 },
    ControllerChanged { attachment_id: Option<String>, generation: u64 },
    TitleChanged { title: String },
    ForegroundProcessChanged { process: Option<String> },
    Owned,
    Handoff { ticket: String, expires_at: u64 },
    Error { message: String },
}

/// What somebody who watches a terminal receives.
#[derive(Debug)]
pub enum SubscriptionEvent {
    Output { start: u64, end: u64, bytes: Vec<u8> },
    Response(Box<Response>),
}

/// How far a frame has been received.
pub enum FrameRead {
    /// At least this many bytes of the frame are missing.
    Need(usize),
    /// The payload is complete.
    Payload(Vec<u8>),
}

/// A `FrameRead` as a mathematical value.
pub enum FrameReadView {
    Need(int),
    Payload(Seq<u8>),
}

/// What a payload holds.
pub enum Payload {
    Output { start: u64, end: u64, bytes: Vec<u8> },
    /// JSON, which is the whole payload.
    Json,
}

/// A `Payload` as a mathematical value.
pub enum PayloadView {
    Output { start: u64, end: u64, bytes: Seq<u8> },
    Json,
}

impl View for FrameRead {
    type V = FrameReadView;

    open spec fn view(&self) -> FrameReadView {
        match self {
            FrameRead::Need(n) => FrameReadView::Need(*n as int),
            FrameRead::Payload(payload) => FrameReadView::Payload(payload@),
        }
    }
}

impl View for Payload {
    type V = PayloadView;

    open spec fn view(&self) -> PayloadView {
        match self {
            Payload::Output { start, end, bytes } => PayloadView::Output {
                start: *start,
                end: *end,
                bytes: bytes@,
            },
            Payload::Json => PayloadView::Json,
        }
    }
}

/// The last `width` bytes of `n`, most significant first.
pub open spec fn be_bytes(n: nat, width: nat) -> Seq<u8>
    decreases width,
{
    if width == 0 {
        Seq::empty()
    } else {
        be_bytes(n / 256, (width - 1) as nat).push((n % 256) as u8)
    }
}

/// The number that some bytes are, most significant first.
pub open spec fn be_value(s: Seq<u8>) -> nat
    decreases s.len(),
{
    if s.len() == 0 {
        0
    } else {
        be_value(s.drop_last()) * 256 + s.last() as nat
    }
}

/// The frame of a payload.
pub open spec fn framed(payload: Seq<u8>) -> Seq<u8> {
    be_bytes(payload.len(), 4) + payload
}

/// The payload of output that stands between two offsets.
pub open spec fn output_payload(start: u64, end: u64, bytes: Seq<u8>) -> Seq<u8> {
    seq![OUTPUT_FRAME_TAG] + be_bytes(start as nat, 8) + be_bytes(end as nat, 8) + bytes
}

/// How far a frame has been received, or that its header is refused.
pub open spec fn frame_read(received: Seq<u8>) -> Result<FrameReadView, Error> {
    if received.len() < 4 {
        Ok(FrameReadView::Need(4 - received.len()))
    } else {
        let length = be_value(received.take(4));
        if length > MAX_FRAME_BYTES {
            Err(Error::FrameClaimsTooMuch { length: length as u64 })
        } else if received.len() < 4 + length {
            Ok(FrameReadView::Need(4 + length - received.len()))
        } else {
            Ok(FrameReadView::Payload(received.subrange(4, 4 + length as int)))
        }
    }
}

/// What a payload holds.
pub open spec fn payload_content(payload: Seq<u8>) -> Result<PayloadView, Error> {
    if payload.len() == 0 || payload[0] != OUTPUT_FRAME_TAG {
        Ok(PayloadView::Json)
    } else if payload.len() < 17 {
        Err(Error::InvalidOutputFrame)
    } else {
        Ok(
            PayloadView::Output {
                start: be_value(payload.subrange(1, 9)) as u64,
                end: be_value(payload.subrange(9, 17)) as u64,
                bytes: payload.skip(17),
            },
        )
    }
}

/// Appends the last `width` bytes of `n`, most significant first.
fn put_be(out: &mut Vec<u8>, n: u64, width: u8)
    ensures
        final(out)@ == old(out)@ + be_bytes(n as nat, width as nat),
    decreases width,
{
    if width > 0 {
        put_be(out, n / 256, width - 1);
        out.push((n % 256) as u8);
        assert(out@ =~= old(out)@ + be_bytes(n as nat, width as nat));
    } else {
        assert(out@ =~= old(out)@ + be_bytes(n as nat, 0));
    }
}

/// The number that the bytes between two positions are, most significant first.
fn get_be(bytes: &[u8], from: usize, to: usize) -> (r: u64)
    requires
        from <= to <= bytes@.len(),
        to - from <= 8,
    ensures
        r == be_value(bytes@.subrange(from as int, to as int)),
{
    let mut r: u64 = 0;
    let mut i: usize = from;
    proof {
        reveal(pow);
    }
    while i < to
        invariant
            from <= i <= to <= bytes@.len(),
            to - from <= 8,
            r == be_value(bytes@.subrange(from as int, i as int)),
        decreases to - i,
    {
        proof {
            let s = bytes@.subrange(from as int, i as int);
            lemma_be_bound(s);
            assert(pow(256, s.len()) <= 0x0100_0000_0000_0000) by {
                vstd::arithmetic::power::lemma_pow_increases(256, s.len(), 7);
                assert(pow(256, 7) == 0x0100_0000_0000_0000) by {
                    reveal_with_fuel(pow, 8);
                }
            }
            assert(bytes@.subrange(from as int, i + 1).drop_last() =~= s);
        }
        r = r * 256 + bytes[i] as u64;
        i += 1;
    }
    r
}

proof fn lemma_be_bound(s: Seq<u8>)
    ensures
        be_value(s) < pow(256, s.len()),
    decreases s.len(),
{
    reveal(pow);
    if s.len() > 0 {
        lemma_be_bound(s.drop_last());
        assert(pow(256, s.len()) == 256 * pow(256, (s.len() - 1) as nat));
    }
}

proof fn lemma_be_inverse(n: nat, width: nat)
    requires
        n < pow(256, width),
    ensures
        be_bytes(n, width).len() == width,
        be_value(be_bytes(n, width)) == n,
    decreases width,
{
    reveal(pow);
    if width > 0 {
        assert(pow(256, width) == 256 * pow(256, (width - 1) as nat));
        lemma_be_inverse(n / 256, (width - 1) as nat);
        assert(be_bytes(n, width).drop_last() =~= be_bytes(n / 256, (width - 1) as nat));
    }
}

/// A number of 32 bits is what its four bytes are.
pub proof fn law_length_reads_back(n: u32)
    ensures
        be_bytes(n as nat, 4).len() == 4,
        be_value(be_bytes(n as nat, 4)) == n,
{
    assert(pow(256, 4) == 0x1_0000_0000) by {
        reveal_with_fuel(pow, 5);
    }
    lemma_be_inverse(n as nat, 4);
}

/// A number of 64 bits is what its eight bytes are.
pub proof fn law_offset_reads_back(n: u64)
    ensures
        be_bytes(n as nat, 8).len() == 8,
        be_value(be_bytes(n as nat, 8)) == n,
{
    assert(pow(256, 8) == 0x1_0000_0000_0000_0000) by {
        reveal_with_fuel(pow, 9);
    }
    lemma_be_inverse(n as nat, 8);
}

/// Writes the frame of a payload, if it may be written.
pub fn write_frame(writer: &mut Vec<u8>, payload: &[u8]) -> (r: Result<(), Error>)
    ensures
        match r {
            Ok(_) => {
                &&& payload@.len() <= MAX_FRAME_BYTES
                &&& final(writer)@ == old(writer)@ + framed(payload@)
            },
            Err(e) => {
                &&& payload@.len() > MAX_FRAME_BYTES
                &&& e == Error::FrameTooLarge
                &&& final(writer)@ == old(writer)@
            },
        },
{
    if payload.len() > MAX_FRAME_BYTES {
        return Err(Error::FrameTooLarge);
    }
    put_be(writer, payload.len() as u64, 4);
    writer.extend_from_slice(payload);
    assert(writer@ =~= old(writer)@ + framed(payload@));
    Ok(())
}

/// Writes the frame of output that stands between two offsets, if it may be written.
pub fn write_output_frame(writer: &mut Vec<u8>, start: u64, end: u64, bytes: &[u8]) -> (r: Result<
    (),
    Error,
>)
    ensures
        match r {
            Ok(_) => {
                &&& bytes@.len() + 17 <= MAX_FRAME_BYTES
                &&& final(writer)@ == old(writer)@ + framed(output_payload(start, end, bytes@))
            },
            Err(e) => {
                &&& bytes@.len() + 17 > MAX_FRAME_BYTES
                &&& e == if bytes@.len() + 17 > usize::MAX {
                    Error::OutputFrameOverflow
                } else {
                    Error::FrameTooLarge
                }
                &&& final(writer)@ == old(writer)@
            },
        },
{
    if bytes.len() > usize::MAX - 17 {
        return Err(Error::OutputFrameOverflow);
    }
    let payload_len: usize = bytes.len() + 17;
    if payload_len > MAX_FRAME_BYTES {
        return Err(Error::FrameTooLarge);
    }
    put_be(writer, payload_len as u64, 4);
    writer.push(OUTPUT_FRAME_TAG);
    put_be(writer, start, 8);
    put_be(writer, end, 8);
    writer.extend_from_slice(bytes);
    proof {
        law_offset_reads_back(start);
        law_offset_reads_back(end);
        assert(output_payload(start, end, bytes@).len() == payload_len);
        assert(writer@ =~= old(writer)@ + framed(output_payload(start, end, bytes@)));
    }
    Ok(())
}

/// How far a frame has been received: how many bytes to read next, or its payload.
pub fn read_payload(received: &[u8]) -> (r: Result<FrameRead, Error>)
    ensures
        match r {
            Ok(read) => frame_read(received@) == Ok::<FrameReadView, Error>(read@),
            Err(e) => frame_read(received@) == Err::<FrameReadView, Error>(e),
        },
{
    if received.len() < 4 {
        return Ok(FrameRead::Need(4 - received.len()));
    }
    let length: u64 = get_be(received, 0, 4);
    assert(received@.subrange(0, 4) =~= received@.take(4));
    if length > MAX_FRAME_BYTES as u64 {
        return Err(Error::FrameClaimsTooMuch { length });
    }
    let end: usize = 4 + length as usize;
    if received.len() < end {
        return Ok(FrameRead::Need(end - received.len()));
    }
    let mut payload: Vec<u8> = Vec::new();
    let mut i: usize = 4;
    while i < end
        invariant
            4 <= i <= end <= received@.len(),
            payload@ == received@.subrange(4, i as int),
        decreases end - i,
    {
        payload.push(received[i]);
        i += 1;
        assert(payload@ =~= received@.subrange(4, i as int));
    }
    Ok(FrameRead::Payload(payload))
}

/// What a payload holds.
pub fn open_payload(payload: &[u8]) -> (r: Result<Payload, Error>)
    ensures
        match r {
            Ok(content) => payload_content(payload@) == Ok::<PayloadView, Error>(content@),
            Err(e) => payload_content(payload@) == Err::<PayloadView, Error>(e),
        },
{
    if payload.len() == 0 || payload[0] != OUTPUT_FRAME_TAG {
        return Ok(Payload::Json);
    }
    if payload.len() < 17 {
        return Err(Error::InvalidOutputFrame);
    }
    let start: u64 = get_be(payload, 1, 9);
    let end: u64 = get_be(payload, 9, 17);
    let mut bytes: Vec<u8> = Vec::new();
    let mut i: usize = 17;
    while i < payload.len()
        invariant
            17 <= i <= payload@.len(),
            bytes@ == payload@.subrange(17, i as int),
        decreases payload@.len() - i,
    {
        bytes.push(payload[i]);
        i += 1;
        assert(bytes@ =~= payload@.subrange(17, i as int));
    }
    assert(bytes@ =~= payload@.skip(17));
    Ok(Payload::Output { start, end, bytes })
}

/// What a value that should stand in JSON is, or the words why it does not.
pub fn read_frame<T>(parsed: Result<T, String>) -> (r: Result<T, Error>)
    ensures
        match parsed {
            Ok(value) => r == Ok::<T, Error>(value),
            Err(cause) => r == Err::<T, Error>(Error::InvalidJson { cause }),
        },
{
    match parsed {
        Ok(value) => Ok(value),
        Err(cause) => Err(Error::InvalidJson { cause }),
    }
}

/// The event in a payload. `parsed` is what the payload is as JSON; it counts only for a payload
/// that is no output.
pub fn read_subscription_event(payload: &[u8], parsed: Result<Response, String>) -> (r: Result<
    SubscriptionEvent,
    Error,
>)
    ensures
        match payload_content(payload@) {
            Err(e) => r == Err::<SubscriptionEvent, Error>(e),
            Ok(PayloadView::Output { start, end, bytes }) => r matches Ok(
                SubscriptionEvent::Output { start: s, end: e, bytes: b },
            ) && s == start && e == end && b@ == bytes,
            Ok(PayloadView::Json) => match parsed {
                Ok(response) => r matches Ok(SubscriptionEvent::Response(boxed)) && *boxed
                    == response,
                Err(cause) => r == Err::<SubscriptionEvent, Error>(Error::InvalidJson { cause }),
            },
        },
{
    match open_payload(payload) {
        Err(e) => Err(e),
        Ok(Payload::Output { start, end, bytes }) => Ok(
            SubscriptionEvent::Output { start, end, bytes },
        ),
        Ok(Payload::Json) => match read_frame(parsed) {
            Ok(response) => Ok(SubscriptionEvent::Response(Box::new(response))),
            Err(e) => Err(e),
        },
    }
}

/// Reading a frame gives back the payload that was written, whatever follows the frame.
pub proof fn law_frame_reads_back(payload: Seq<u8>, rest: Seq<u8>)
    requires
        payload.len() <= MAX_FRAME_BYTES,
    ensures
        frame_read(framed(payload) + rest) == Ok::<FrameReadView, Error>(
            FrameReadView::Payload(payload),
        ),
{
    law_length_reads_back(payload.len() as u32);
    let received = framed(payload) + rest;
    assert(received.take(4) =~= be_bytes(payload.len(), 4));
    assert(received.subrange(4, 4 + payload.len() as int) =~= payload);
}

/// While a frame is incomplete, more of it is asked for and nothing beyond it, so that reading
/// as told ends exactly at its end.
pub proof fn law_frame_is_not_overread(payload: Seq<u8>, n: int)
    requires
        payload.len() <= MAX_FRAME_BYTES,
        0 <= n < framed(payload).len(),
    ensures
        frame_read(framed(payload).take(n)) matches Ok(FrameReadView::Need(more)) && 0 < more <= framed(
            payload,
        ).len() - n,
{
    law_length_reads_back(payload.len() as u32);
    let received = framed(payload).take(n);
    if n >= 4 {
        assert(received.take(4) =~= be_bytes(payload.len(), 4));
    }
}

/// Opening the payload of output gives back the offsets and the bytes.
pub proof fn law_output_reads_back(start: u64, end: u64, bytes: Seq<u8>)
    ensures
        payload_content(output_payload(start, end, bytes)) == Ok::<PayloadView, Error>(
            PayloadView::Output { start, end, bytes },
        ),
{
    law_offset_reads_back(start);
    law_offset_reads_back(end);
    let payload = output_payload(start, end, bytes);
    assert(payload[0] == OUTPUT_FRAME_TAG);
    assert(payload.subrange(1, 9) =~= be_bytes(start as nat, 8));
    assert(payload.subrange(9, 17) =~= be_bytes(end as nat, 8));
    assert(payload.skip(17) =~= bytes);
}

/// The most significant byte of a number comes first.
pub proof fn law_most_significant_byte_first(s: Seq<u8>)
    ensures
        s.len() == 4 ==> be_value(s) == s[0] * 0x100_0000 + s[1] * 0x1_0000 + s[2] * 0x100 + s[3],
        s.len() == 8 ==> be_value(s) == s[0] * 0x100_0000_0000_0000 + s[1] * 0x1_0000_0000_0000
            + s[2] * 0x100_0000_0000 + s[3] * 0x1_0000_0000 + s[4] * 0x100_0000 + s[5] * 0x1_0000
            + s[6] * 0x100 + s[7],
{
    reveal_with_fuel(be_value, 9);
    if s.len() == 4 || s.len() == 8 {
        assert(s.drop_last().last() == s[s.len() - 2]);
        assert(s.drop_last().drop_last().last() == s[s.len() - 3]);
        assert(s.drop_last().drop_last().drop_last().last() == s[s.len() - 4]);
    }
    if s.len() == 8 {
        let t = s.drop_last().drop_last().drop_last().drop_last();
        assert(t.last() == s[3]);
        assert(t.drop_last().last() == s[2]);
        assert(t.drop_last().drop_last().last() == s[1]);
        assert(t.drop_last().drop_last().drop_last().last() == s[0]);
    }
}

/// A header is looked at once it is complete. One that announces more than eight mebibytes is
/// refused whatever follows; until the announced payload is complete, the rest of it is asked for.
pub proof fn law_headers_are_looked_at(received: Seq<u8>)
    ensures
        received.len() < 4 ==> frame_read(received) == Ok::<FrameReadView, Error>(
            FrameReadView::Need(4 - received.len()),
        ),
        received.len() >= 4 ==> {
            let length = received[0] * 0x100_0000 + received[1] * 0x1_0000 + received[2] * 0x100
                + received[3];
            if length > 8 * 1024 * 1024 {
                frame_read(received) matches Err(e) && e@ == "frame claims "@ + decimal(
                    length as nat,
                ) + " bytes, limit is 8388608"@
            } else if received.len() < 4 + length {
                frame_read(received) == Ok::<FrameReadView, Error>(
                    FrameReadView::Need(4 + length - received.len()),
                )
            } else {
                frame_read(received) == Ok::<FrameReadView, Error>(
                    FrameReadView::Payload(received.skip(4).take(length)),
                )
            }
        },
{
    if received.len() >= 4 {
        let head = received.take(4);
        law_most_significant_byte_first(head);
        let length = be_value(head) as int;
        if received.len() >= 4 + length {
            assert(received.subrange(4, 4 + length) =~= received.skip(4).take(length));
        }
    }
}

/// A payload is output exactly if it begins with a zero byte; output without room for its two
/// offsets is refused.
pub proof fn law_payloads_are_told_apart(payload: Seq<u8>)
    ensures
        payload.len() == 0 || payload[0] != 0 ==> payload_content(payload) == Ok::<
            PayloadView,
            Error,
        >(PayloadView::Json),
        0 < payload.len() < 17 && payload[0] == 0 ==> (payload_content(payload) matches Err(e) && e@
            == "invalid output frame"@),
        payload.len() >= 17 && payload[0] == 0 ==> (payload_content(payload) matches Ok(
            PayloadView::Output { start, end, bytes },
        ) && bytes == payload.skip(17) && be_bytes(start as nat, 8) == payload.subrange(1, 9)
            && be_bytes(end as nat, 8) == payload.subrange(9, 17)),
{
    if payload.len() >= 17 {
        lemma_be_back(payload.subrange(1, 9));
        lemma_be_back(payload.subrange(9, 17));
        lemma_be_bound(payload.subrange(1, 9));
        lemma_be_bound(payload.subrange(9, 17));
        assert(pow(256, 8) == 0x1_0000_0000_0000_0000) by {
            reveal_with_fuel(pow, 9);
        }
    }
}

proof fn lemma_be_back(s: Seq<u8>)
    ensures
        be_bytes(be_value(s), s.len()) == s,
    decreases s.len(),
{
    if s.len() > 0 {
        lemma_be_back(s.drop_last());
        let v = be_value(s.drop_last());
        let d = s.last() as nat;
        assert((v * 256 + d) / 256 == v);
        assert((v * 256 + d) % 256 == d);
        assert(be_bytes(be_value(s), s.len()) =~= s);
    } else {
        assert(be_bytes(be_value(s), 0) =~= s);
    }
}

/// What is written is the length of what follows, and then that: the tag, where the output begins,
/// where it ends, and the output.
pub proof fn law_frames_say_their_length(payload: Seq<u8>, start: u64, end: u64, bytes: Seq<u8>)
    requires
        payload.len() <= u32::MAX,
    ensures
        framed(payload).len() == 4 + payload.len(),
        framed(payload).skip(4) == payload,
        be_value(framed(payload).take(4)) == payload.len(),
        output_payload(start, end, bytes).len() == 17 + bytes.len(),
        output_payload(start, end, bytes)[0] == 0,
        be_value(output_payload(start, end, bytes).subrange(1, 9)) == start,
        be_value(output_payload(start, end, bytes).subrange(9, 17)) == end,
        output_payload(start, end, bytes).skip(17) == bytes,
{
    law_length_reads_back(payload.len() as u32);
    law_offset_reads_back(start);
    law_offset_reads_back(end);
    assert(framed(payload).skip(4) =~= payload);
    assert(framed(payload).take(4) =~= be_bytes(payload.len(), 4));
    let out = output_payload(start, end, bytes);
    assert(out.subrange(1, 9) =~= be_bytes(start as nat, 8));
    assert(out.subrange(9, 17) =~= be_bytes(end as nat, 8));
    assert(out.skip(17) =~= bytes);
}

/// What is said in contracts of what was read is what was read.
pub proof fn law_reads_show_what_was_read(read: FrameRead, payload: Payload)
    ensures
        match (read, read@) {
            (FrameRead::Need(n), FrameReadView::Need(m)) => m == n,
            (FrameRead::Payload(bytes), FrameReadView::Payload(b)) => b == bytes@,
            _ => false,
        },
        match (payload, payload@) {
            (
                Payload::Output { start, end, bytes },
                PayloadView::Output { start: s, end: e, bytes: b },
            ) => s == start && e == end && b == bytes@,
            (Payload::Json, PayloadView::Json) => true,
            _ => false,
        },
{
}

} // verus!
