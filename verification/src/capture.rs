//! The engine run over bytes that are already at hand: a recorded stream,
//! or a buffer that a transport filled.
//!
//! Reads are served from the stream in order, each with exactly the number of
//! bytes the engine asks for. When the stream cannot serve a read, the run
//! ends without a result.

use crate::crc32::{crc_of, law_one_byte_changed};
use crate::header::{header_of, law_header_round_trip, lemma_wire_len, Header, MessageID, HDR_LEN};
use crate::logs::{Log, LogView};
use crate::message::Message;
use crate::oem6::{
    check_log, check_response, log_verdict, response_verdict, sealed, OEMResult, Progress, Waiting,
    OEM6,
};
use crate::wire::{lemma_u32_at_one_to_one, lemma_u32_round_trip, u32_at, u32_bytes};
use vstd::prelude::*;

verus! {

/// Whether `head` and `body` are the header and the body of one frame: 28
/// bytes that open with the sync marker and announce a body as long as
/// `body`. Nothing is asked of the other bytes of the header.
pub open spec fn opens(head: Seq<u8>, body: Seq<u8>) -> bool {
    &&& head.len() == HDR_LEN
    &&& header_of(head).has_sync_spec()
    &&& header_of(head).msg_len == body.len()
}

/// A frame as it travels: the bytes of the header, the body, and the check
/// value of both.
pub open spec fn frame_bytes(head: Seq<u8>, body: Seq<u8>) -> Seq<u8> {
    sealed(head + body)
}

/// A header that the reader accepts and that tells the truth about `body`.
pub open spec fn well_formed(hdr: Header, body: Seq<u8>) -> bool {
    &&& hdr.has_sync_spec()
    &&& hdr.msg_id.wf()
    &&& hdr.msg_len == body.len()
}

/// One for a reader that has a header and waits for the body, else zero: a
/// body may be empty, and then the read for it takes nothing from the stream.
pub open spec fn rank(w: Waiting) -> nat {
    match w {
        Waiting::Body { hdr, message } => 1,
        _ => 0,
    }
}

/// A frame found in the rest of a stream, counted from `n` bytes earlier.
pub open spec fn later(found: Option<(Header, Seq<u8>, nat)>, n: nat) -> Option<
    (Header, Seq<u8>, nat),
> {
    match found {
        Some((hdr, body, used)) => Some((hdr, body, n + used)),
        None => None,
    }
}

/// The first frame that a reader in state `w` gets out of `stream`: its
/// header, its body, and how many bytes of the stream were read for it.
#[verifier::opaque]
pub open spec fn scan(w: Waiting, stream: Seq<u8>) -> Option<(Header, Seq<u8>, nat)>
    decreases stream.len(), rank(w),
{
    let n = w.wanted();
    if stream.len() < n {
        None
    } else {
        match w.step(stream.take(n as int)) {
            Progress::Frame(hdr, body) => Some((hdr, body, n)),
            Progress::More(next) => later(scan(next, stream.skip(n as int)), n),
        }
    }
}

/// A frame is never shorter than a header and a check value.
pub proof fn lemma_scan_used(w: Waiting, stream: Seq<u8>)
    ensures
        scan(w, stream) matches Some(got) ==> got.2 <= stream.len() && (w is Header ==> got.2
            >= HDR_LEN + 4) && (w is Body ==> got.2 >= 4) && (w is Trailer ==> got.2 >= 4),
    decreases stream.len(), rank(w),
{
    reveal(scan);
    let n = w.wanted();
    if stream.len() >= n {
        match w.step(stream.take(n as int)) {
            Progress::Frame(hdr, body) => {},
            Progress::More(next) => {
                lemma_scan_used(next, stream.skip(n as int));
            },
        }
    }
}

/// Reads the first frame out of `stream` from `start` on. Returns the header,
/// the body, and the index of the byte after the frame's check value. A start
/// behind the end of the stream finds nothing.
#[verifier::rlimit(50)]
pub fn read_frame(stream: &[u8], start: usize) -> (frame: Option<(Header, Vec<u8>, usize)>)
    ensures
        start > stream@.len() ==> frame is None,
        start <= stream@.len() ==> match scan(Waiting::Header, stream@.skip(start as int)) {
            None => frame is None,
            Some((hdr, body, used)) => {
                &&& frame matches Some(got)
                &&& got.0 == hdr
                &&& got.1@ == body
                &&& got.2 == start + used
            },
        },
{
    let len: usize = stream.len();
    if start > len {
        return None;
    }
    let mut oem = OEM6::new();
    let mut at: usize = start;
    let ghost whole = scan(Waiting::Header, stream@.skip(start as int));
    loop
        invariant
            len == stream@.len(),
            start <= at <= len,
            whole == scan(Waiting::Header, stream@.skip(start as int)),
            whole == match scan(oem@, stream@.skip(at as int)) {
                Some((hdr, body, used)) => Some((hdr, body, (at - start + used) as nat)),
                None => None,
            },
        decreases len - at, rank(oem@),
    {
        proof {
            reveal(scan);
        }
        let n: usize = oem.wanted();
        if len - at < n {
            return None;
        }
        let data: Vec<u8> = vstd::slice::slice_to_vec(
            vstd::slice::slice_subrange(stream, at, at + n),
        );
        assert(data@ == stream@.skip(at as int).take(n as int));
        assert(stream@.skip(at as int).skip(n as int) == stream@.skip(at + n));
        at = at + n;
        match oem.get_message(data) {
            Some((hdr, body)) => {
                return Some((hdr, body, at));
            },
            None => {},
        }
    }
}

/// The first log in `stream` and how many bytes were read to get it. Frames
/// that are responses and frames whose bodies do not fit their decoders are
/// passed over; a frame whose message has no decoder counts as a log.
#[verifier::opaque]
pub open spec fn log_in(stream: Seq<u8>) -> Option<(LogView, nat)>
    decreases stream.len(),
{
    match scan(Waiting::Header, stream) {
        None => None,
        Some((hdr, body, used)) => {
            if log_verdict(hdr, body) is Some {
                Some((log_verdict(hdr, body)->0, used))
            } else {
                proof {
                    lemma_scan_used(Waiting::Header, stream);
                }
                match log_in(stream.skip(used as int)) {
                    Some((log, more)) => Some((log, used + more)),
                    None => None,
                }
            }
        },
    }
}

/// Reads frames out of `stream` until one is a log that decodes, and returns
/// that log with the index of the byte after its frame.
pub fn first_log(stream: &[u8]) -> (found: Option<(Log, usize)>)
    ensures
        found is Some <==> log_in(stream@) is Some,
        found matches Some(got) ==> {
            &&& log_in(stream@) matches Some(want)
            &&& got.0@ == want.0
            &&& got.1 == want.1
        },
{
    let mut at: usize = 0;
    assert(stream@.skip(0) == stream@);
    loop
        invariant
            at <= stream@.len(),
            log_in(stream@) == match log_in(stream@.skip(at as int)) {
                Some((log, more)) => Some((log, (at + more) as nat)),
                None => None,
            },
        decreases stream@.len() - at,
    {
        proof {
            reveal(log_in);
            lemma_scan_used(Waiting::Header, stream@.skip(at as int));
        }
        match read_frame(stream, at) {
            None => {
                return None;
            },
            Some((hdr, body, next)) => {
                assert(stream@.skip(at as int).skip(next - at) == stream@.skip(next as int));
                at = next;
                match check_log(&hdr, body) {
                    Some(log) => {
                        return Some((log, at));
                    },
                    None => {},
                }
            },
        }
    }
}

/// Reads the first frame out of `stream` and judges it as the response to the
/// command for `expected`. Returns nothing where the stream holds no frame.
pub fn first_response(stream: &[u8], expected: MessageID) -> (r: Option<OEMResult<()>>)
    ensures
        match scan(Waiting::Header, stream@) {
            None => r is None,
            Some((hdr, body, used)) => {
                &&& r matches Some(verdict)
                &&& verdict is Ok <==> response_verdict(hdr, body, expected) is Ok
                &&& verdict is Err ==> verdict->Err_0@ == response_verdict(
                    hdr,
                    body,
                    expected,
                )->Err_0
            },
        },
{
    assert(stream@.skip(0) == stream@);
    match read_frame(stream, 0) {
        None => None,
        Some((hdr, body, _)) => Some(check_response(&hdr, body, expected)),
    }
}

/// A sequence cut where its first part ends gives back the two parts.
pub(crate) proof fn lemma_cut(first: Seq<u8>, second: Seq<u8>)
    ensures
        (first + second).take(first.len() as int) == first,
        (first + second).skip(first.len() as int) == second,
        (first + second).len() == first.len() + second.len(),
{
}

/// A reader that is served the 28 bytes of an acceptable header goes on to
/// wait for the body.
proof fn lemma_read_header(head: Seq<u8>, tail: Seq<u8>)
    requires
        head.len() == HDR_LEN,
        header_of(head).has_sync_spec(),
    ensures
        scan(Waiting::Header, head + tail) == later(
            scan(Waiting::Body { hdr: header_of(head), message: head }, tail),
            HDR_LEN as nat,
        ),
{
    reveal(scan);
    lemma_cut(head, tail);
}

/// A reader that is served the body it waits for goes on to wait for the
/// check value.
proof fn lemma_read_body(hdr: Header, message: Seq<u8>, body: Seq<u8>, tail: Seq<u8>)
    requires
        hdr.msg_len == body.len(),
    ensures
        scan(Waiting::Body { hdr, message }, body + tail) == later(
            scan(Waiting::Trailer { hdr, message: message + body }, tail),
            body.len(),
        ),
{
    reveal(scan);
    lemma_cut(body, tail);
}

/// A reader that is served four bytes as the check value hands out the frame
/// where they are the check value of what it gathered, and waits for a
/// header again where they are not.
proof fn lemma_read_trailer(hdr: Header, message: Seq<u8>, trailer: Seq<u8>, tail: Seq<u8>)
    requires
        trailer.len() == 4,
    ensures
        scan(Waiting::Trailer { hdr, message }, trailer + tail) == if u32_at(trailer, 0)
            == crc_of(message) {
            Some((hdr, message.skip(HDR_LEN as int), 4nat))
        } else {
            later(scan(Waiting::Header, tail), 4)
        },
{
    reveal(scan);
    lemma_cut(trailer, tail);
}

/// What a reader makes of a stream that opens with 28 bytes that are an
/// acceptable header, as many bytes as that header announces, and four more:
/// the frame where the four are the check value of what came before, and
/// else whatever it makes of the rest.
pub(crate) proof fn lemma_three_reads(head: Seq<u8>, body: Seq<u8>, trailer: Seq<u8>, rest: Seq<u8>)
    requires
        head.len() == HDR_LEN,
        header_of(head).has_sync_spec(),
        header_of(head).msg_len == body.len(),
        trailer.len() == 4,
    ensures
        scan(Waiting::Header, head + body + trailer + rest) == if u32_at(trailer, 0) == crc_of(
            head + body,
        ) {
            Some((header_of(head), body, (HDR_LEN + body.len() + 4) as nat))
        } else {
            later(scan(Waiting::Header, rest), (HDR_LEN + body.len() + 4) as nat)
        },
{
    let hdr = header_of(head);
    let s2 = trailer + rest;
    let s1 = body + s2;
    assert(head + body + trailer + rest == head + s1);
    lemma_read_header(head, s1);
    lemma_read_body(hdr, head, body, s2);
    lemma_read_trailer(hdr, head + body, trailer, rest);
    lemma_cut(head, body);
}

/// What this library writes for a header that tells the truth about its
/// body is a frame in the sense of `opens`, and its header reads back as it
/// was written.
pub proof fn law_written_frame_opens(hdr: Header, body: Seq<u8>)
    requires
        well_formed(hdr, body),
    ensures
        opens(hdr.wire(), body),
        header_of(hdr.wire()) == hdr,
{
    lemma_wire_len(hdr);
    law_header_round_trip(hdr, Seq::empty());
    assert(hdr.wire() + Seq::<u8>::empty() == hdr.wire());
}

/// A reader that waits for a header and is served a frame hands out that
/// frame, the header that its first 28 bytes spell and the body as it was
/// sent, and has then read the frame and nothing more. This holds of every
/// frame, whatever its header holds besides sync marker and length.
pub proof fn law_frame_is_read(head: Seq<u8>, body: Seq<u8>, rest: Seq<u8>)
    requires
        opens(head, body),
    ensures
        scan(Waiting::Header, frame_bytes(head, body) + rest) == Some(
            (header_of(head), body, frame_bytes(head, body).len()),
        ),
        frame_bytes(head, body).len() == HDR_LEN + body.len() + 4,
{
    let trailer = u32_bytes(crc_of(head + body));
    lemma_u32_round_trip(crc_of(head + body));
    lemma_three_reads(head, body, trailer, rest);
}

/// A reader that waits for a header and is served 28 bytes without the sync
/// marker in front hands out nothing of them and waits for a header again.
pub proof fn law_bad_sync_is_passed_over(s: Seq<u8>)
    requires
        s.len() >= HDR_LEN,
        !header_of(s).has_sync_spec(),
    ensures
        Waiting::Header.step(s.take(HDR_LEN as int)) == Progress::More(Waiting::Header),
        scan(Waiting::Header, s) == later(
            scan(Waiting::Header, s.skip(HDR_LEN as int)),
            HDR_LEN as nat,
        ),
{
    reveal(scan);
    lemma_header_of_prefix(s, s.take(HDR_LEN as int));
}

/// A header is read from the first 28 bytes alone.
pub(crate) proof fn lemma_header_of_prefix(s: Seq<u8>, head: Seq<u8>)
    requires
        s.len() >= HDR_LEN,
        head == s.take(HDR_LEN as int),
    ensures
        header_of(head) == header_of(s),
{
    assert(header_of(head).sync =~= header_of(s).sync);
}

/// A field is read from its four bytes alone.
pub(crate) proof fn lemma_u32_at_shifted(s: Seq<u8>, at: int, field: Seq<u8>)
    requires
        0 <= at,
        at + 4 <= s.len(),
        field == s.subrange(at, at + 4),
    ensures
        u32_at(field, 0) == u32_at(s, at),
{
}

/// A frame in which one byte was changed, be it in the header, in the body
/// or in the check value, is read and dropped: the reader hands out nothing
/// of it and goes on with what follows. The bytes of the sync marker and of
/// the length are left out here: a change in them moves the places where the
/// reader looks.
#[verifier::rlimit(50)]
pub proof fn law_corrupt_frame_is_dropped(
    head: Seq<u8>,
    body: Seq<u8>,
    bad: Seq<u8>,
    at: int,
    rest: Seq<u8>,
)
    requires
        opens(head, body),
        bad.len() == frame_bytes(head, body).len(),
        3 <= at < 8 || 10 <= at < bad.len(),
        bad[at] != frame_bytes(head, body)[at],
        forall|i: int| 0 <= i < bad.len() && i != at ==> bad[i] == frame_bytes(head, body)[i],
    ensures
        scan(Waiting::Header, bad + rest) == later(scan(Waiting::Header, rest), bad.len()),
{
    let crc = crc_of(head + body);
    let trailer = u32_bytes(crc);
    let good = head + body + trailer;
    lemma_u32_round_trip(crc);
    assert(good == frame_bytes(head, body));
    let end = 28 + body.len() as int;
    let got_head = bad.take(28);
    let got_body = bad.subrange(28, end);
    let got_trailer = bad.subrange(end, end + 4);
    assert(bad == got_head + got_body + got_trailer);
    lemma_same_sync_and_length(head, got_head, at);
    lemma_changed_part(good, bad, at, end);
    assert(good.take(end) == head + body);
    assert(bad.take(end) == got_head + got_body);
    if at < end {
        law_one_byte_changed(got_head + got_body, head + body, at);
        assert(got_trailer == trailer);
    } else {
        if u32_at(got_trailer, 0) == crc {
            lemma_u32_at_one_to_one(got_trailer, trailer);
        }
    }
    lemma_three_reads(got_head, got_body, got_trailer, rest);
    assert(bad + rest == got_head + got_body + got_trailer + rest);
}

/// A header keeps its sync marker and its length when a byte that belongs
/// to neither is changed, or none at all.
proof fn lemma_same_sync_and_length(head: Seq<u8>, got: Seq<u8>, at: int)
    requires
        head.len() == HDR_LEN,
        got.len() == HDR_LEN,
        3 <= at < 8 || 10 <= at,
        forall|i: int| 0 <= i < HDR_LEN && i != at ==> got[i] == head[i],
    ensures
        header_of(got).has_sync_spec() == header_of(head).has_sync_spec(),
        header_of(got).msg_len == header_of(head).msg_len,
{
}

/// Two sequences that differ in one byte differ in that byte of whichever
/// part holds it, and agree in the other part.
proof fn lemma_changed_part(good: Seq<u8>, bad: Seq<u8>, at: int, end: int)
    requires
        good.len() == bad.len(),
        0 <= end <= good.len(),
        0 <= at < good.len(),
        good[at] != bad[at],
        forall|i: int| 0 <= i < good.len() && i != at ==> good[i] == bad[i],
    ensures
        at < end ==> {
            &&& bad.take(end)[at] != good.take(end)[at]
            &&& forall|i: int|
                0 <= i < end && i != at ==> bad.take(end)[i] == good.take(end)[i]
            &&& bad.skip(end) == good.skip(end)
        },
        at >= end ==> {
            &&& bad.take(end) == good.take(end)
            &&& bad.skip(end)[at - end] != good.skip(end)[at - end]
        },
{
}

/// Frames one after another, as they travel. Each is given by the bytes of
/// its header and its body.
pub open spec fn stream_of(frames: Seq<(Seq<u8>, Seq<u8>)>) -> Seq<u8>
    decreases frames.len(),
{
    if frames.len() == 0 {
        Seq::empty()
    } else {
        frame_bytes(frames[0].0, frames[0].1) + stream_of(frames.drop_first())
    }
}

/// What reading one frame does to the search for a log: the search ends
/// with the frame where it is a log, and goes on behind it where it is not.
pub proof fn lemma_log_in_frame(head: Seq<u8>, body: Seq<u8>, tail: Seq<u8>)
    requires
        opens(head, body),
    ensures
        log_in(frame_bytes(head, body) + tail) == if log_verdict(header_of(head), body) is Some {
            Some((log_verdict(header_of(head), body)->0, frame_bytes(head, body).len()))
        } else {
            match log_in(tail) {
                Some((log, more)) => Some((log, frame_bytes(head, body).len() + more)),
                None => None,
            }
        },
{
    reveal(log_in);
    let first = frame_bytes(head, body);
    law_frame_is_read(head, body, tail);
    assert((first + tail).skip(first.len() as int) == tail);
}

/// The stream of a list of frames is the first frame, then the stream of
/// the others.
proof fn lemma_stream_of_parts(list: Seq<(Seq<u8>, Seq<u8>)>, k: int)
    requires
        0 <= k < list.len(),
    ensures
        stream_of(list) == frame_bytes(list[0].0, list[0].1) + stream_of(list.drop_first()),
        stream_of(list.take(k + 1)) == frame_bytes(list[0].0, list[0].1) + stream_of(
            list.drop_first().take(k),
        ),
        stream_of(list.take(0)) == Seq::<u8>::empty(),
{
    let upto = list.take(k + 1);
    assert(upto[0] == list[0]);
    assert(upto.drop_first() == list.drop_first().take(k));
}

/// From a stream of frames the first log is the first frame that is no
/// response and whose body fits the decoder of its message, if that has one.
/// Every frame before it is passed over, responses among them, and no frame
/// after it is read. The frames are any that a reader accepts, whatever
/// their headers hold besides sync marker and length.
#[verifier::rlimit(50)]
pub proof fn law_first_log_is_returned(list: Seq<(Seq<u8>, Seq<u8>)>, k: int, rest: Seq<u8>)
    requires
        0 <= k < list.len(),
        forall|i: int| 0 <= i <= k ==> opens(#[trigger] list[i].0, list[i].1),
        forall|i: int|
            0 <= i < k ==> log_verdict(header_of(#[trigger] list[i].0), list[i].1) is None,
        log_verdict(header_of(list[k].0), list[k].1) is Some,
    ensures
        log_in(stream_of(list) + rest) == Some(
            (log_verdict(header_of(list[k].0), list[k].1)->0, stream_of(list.take(k + 1)).len()),
        ),
    decreases k,
{
    let head = list[0].0;
    let body = list[0].1;
    let first = frame_bytes(head, body);
    let others = list.drop_first();
    lemma_stream_of_parts(list, k);
    assert(stream_of(list) + rest == first + (stream_of(others) + rest));
    assert(opens(list[0].0, list[0].1));
    lemma_log_in_frame(head, body, stream_of(others) + rest);
    if k == 0 {
        assert(others.take(0) == Seq::<(Seq<u8>, Seq<u8>)>::empty());
        assert(stream_of(others.take(0)) == Seq::<u8>::empty());
        assert(first + Seq::<u8>::empty() == first);
    } else {
        assert forall|i: int| 0 <= i <= k - 1 implies opens(
            #[trigger] others[i].0,
            others[i].1,
        ) by {
            assert(others[i] == list[i + 1]);
        }
        assert forall|i: int| 0 <= i < k - 1 implies log_verdict(
            header_of(#[trigger] others[i].0),
            others[i].1,
        ) is None by {
            assert(others[i] == list[i + 1]);
        }
        assert(others[k - 1] == list[k]);
        law_first_log_is_returned(others, k - 1, rest);
    }
}

} // verus!
