//! Finding frames in a stream whose frame boundaries are not known: after
//! noise, after a lost byte, or when reading starts in the middle.

use crate::capture::{
    frame_bytes, lemma_cut, lemma_header_of_prefix, lemma_three_reads, lemma_u32_at_shifted, opens,
    scan,
};
use crate::crc32::{calc_crc, crc_of};
use crate::header::{header_of, Header, MessageID, HDR_LEN, SYNC};
use crate::logs::Log;
use crate::oem6::{
    check_log, check_response, log_verdict, response_verdict, OEMResult, Waiting,
};
use crate::wire::{lemma_u32_round_trip, nom_le_u32, u32_at, u32_bytes};
use vstd::prelude::*;

verus! {

/// The frame that `s` begins with: its first 28 bytes are a header with the
/// sync marker, the body that the header announces and a check value follow,
/// and the check value is that of header and body.
pub open spec fn leading_frame(s: Seq<u8>) -> Option<(Header, Seq<u8>)> {
    let hdr = header_of(s);
    let end = HDR_LEN + hdr.msg_len;
    if s.len() >= HDR_LEN && hdr.has_sync_spec() && s.len() >= end + 4 && u32_at(s, end)
        == crc_of(s.take(end)) {
        Some((hdr, s.subrange(HDR_LEN as int, end)))
    } else {
        None
    }
}

/// The frame that begins at byte `at` of `stream`.
pub open spec fn frame_at(stream: Seq<u8>, at: int) -> Option<(Header, Seq<u8>)> {
    leading_frame(stream.skip(at))
}

/// What can become of bytes as the start of a frame.
pub enum Outlook {
    /// No frame begins with these bytes, whatever follows them.
    Never,
    /// A frame may begin with these bytes; more are needed to tell.
    Pending,
    /// These bytes begin with a frame: its header and its body.
    Frame(Header, Seq<u8>),
}

/// Whether `s` opens with the sync marker, as far as `s` reaches.
pub open spec fn sync_so_far(s: Seq<u8>) -> bool {
    &&& s.len() >= 1 ==> s[0] == SYNC[0]
    &&& s.len() >= 2 ==> s[1] == SYNC[1]
    &&& s.len() >= 3 ==> s[2] == SYNC[2]
}

/// What can become of `s` as the start of a frame.
///
/// Short of a header, `s` is pending while it agrees with the sync marker.
/// With a header, it is pending while body and check value are not all
/// there. Once they are, it either begins with a frame or never will.
pub open spec fn outlook(s: Seq<u8>) -> Outlook {
    if s.len() < HDR_LEN {
        if sync_so_far(s) {
            Outlook::Pending
        } else {
            Outlook::Never
        }
    } else if !header_of(s).has_sync_spec() {
        Outlook::Never
    } else if s.len() < HDR_LEN + header_of(s).msg_len + 4 {
        Outlook::Pending
    } else {
        match leading_frame(s) {
            Some((hdr, body)) => Outlook::Frame(hdr, body),
            None => Outlook::Never,
        }
    }
}

/// How many bytes `s` lacks before it can be told whether it begins with a
/// frame; zero where that can be told already.
pub open spec fn missing(s: Seq<u8>) -> nat {
    if s.len() < HDR_LEN {
        (HDR_LEN - s.len()) as nat
    } else if s.len() < HDR_LEN + header_of(s).msg_len + 4 {
        (HDR_LEN + header_of(s).msg_len + 4 - s.len()) as nat
    } else {
        0
    }
}

/// The outcome of looking at one place of a stream.
enum Probe {
    Never,
    Pending,
    Frame(Header, Vec<u8>),
}

/// Looks at what begins at byte `at` of `stream`.
#[verifier::rlimit(50)]
fn probe(stream: &[u8], at: usize) -> (r: Probe)
    requires
        at <= stream@.len(),
    ensures
        match outlook(stream@.skip(at as int)) {
            Outlook::Never => r is Never,
            Outlook::Pending => r is Pending,
            Outlook::Frame(hdr, body) => {
                &&& r matches Probe::Frame(got_hdr, got_body)
                &&& got_hdr == hdr
                &&& got_body@ == body
            },
        },
{
    let len: usize = stream.len();
    let have: usize = len - at;
    let ghost s = stream@.skip(at as int);
    if have < HDR_LEN as usize {
        if (have >= 1 && stream[at] != SYNC[0]) || (have >= 2 && stream[at + 1] != SYNC[1]) || (
        have >= 3 && stream[at + 2] != SYNC[2]) {
            return Probe::Never;
        }
        return Probe::Pending;
    }
    let head = vstd::slice::slice_subrange(stream, at, at + HDR_LEN as usize);
    assert(head@ == s.take(HDR_LEN as int));
    let hdr = match Header::parse(head) {
        Some(hdr) => hdr,
        None => {
            return Probe::Never;
        },
    };
    proof {
        lemma_header_of_prefix(s, head@);
    }
    if !hdr.has_sync() {
        return Probe::Never;
    }
    let size: usize = HDR_LEN as usize + hdr.msg_len as usize;
    if have < size || have - size < 4 {
        return Probe::Pending;
    }
    let end: usize = at + size;
    let message = vstd::slice::slice_subrange(stream, at, end);
    assert(message@ == s.take(size as int));
    let trailer = vstd::slice::slice_subrange(stream, end, end + 4);
    proof {
        assert(trailer@ == s.subrange(size as int, size + 4));
        lemma_u32_at_shifted(s, size as int, trailer@);
    }
    match nom_le_u32(trailer) {
        None => Probe::Never,
        Some(crc) => {
            if calc_crc(message) != crc {
                return Probe::Never;
            }
            let body = vstd::slice::slice_to_vec(
                vstd::slice::slice_subrange(stream, at + HDR_LEN as usize, end),
            );
            assert(body@ == s.subrange(HDR_LEN as int, size as int));
            Probe::Frame(hdr, body)
        },
    }
}

/// Checks whether a frame begins at byte `at` of `stream`.
fn try_frame(stream: &[u8], at: usize) -> (frame: Option<(Header, Vec<u8>)>)
    requires
        at <= stream@.len(),
    ensures
        frame is Some <==> frame_at(stream@, at as int) is Some,
        frame matches Some(got) ==> {
            &&& frame_at(stream@, at as int) matches Some(want)
            &&& got.0 == want.0
            &&& got.1@ == want.1
        },
{
    match probe(stream, at) {
        Probe::Frame(hdr, body) => Some((hdr, body)),
        _ => None,
    }
}

/// Searches `stream` from `start` on, byte by byte, for the first place where
/// a frame begins. Returns that place with the frame's header and body.
///
/// This is how a reader finds its way back into a stream that it lost:
/// whatever lies before the first whole frame is passed over.
pub fn find_frame(stream: &[u8], start: usize) -> (found: Option<(usize, Header, Vec<u8>)>)
    ensures
        match found {
            None => forall|at: int|
                start <= at <= stream@.len() ==> (#[trigger] frame_at(stream@, at)) is None,
            Some((place, hdr, body)) => {
                &&& start <= place <= stream@.len()
                &&& forall|at: int| start <= at < place ==> (#[trigger] frame_at(stream@, at)) is None
                &&& frame_at(stream@, place as int) matches Some(want)
                &&& hdr == want.0
                &&& body@ == want.1
            },
        },
{
    let len: usize = stream.len();
    let mut at: usize = start;
    while at <= len
        invariant
            len == stream@.len(),
            start <= at,
            forall|k: int| start <= k < at && k <= len ==> (#[trigger] frame_at(stream@, k)) is None,
        decreases len + 1 - at,
    {
        match try_frame(stream, at) {
            Some((hdr, body)) => {
                return Some((at, hdr, body));
            },
            None => {},
        }
        if at == len {
            return None;
        }
        at = at + 1;
    }
    None
}

/// A frame that a search finds at the head of a stream is the frame that a
/// reader hands out when it is served that stream.
pub proof fn law_found_frame_is_read(s: Seq<u8>)
    requires
        leading_frame(s) is Some,
    ensures
        leading_frame(s) matches Some(frame) && scan(Waiting::Header, s) == Some(
            (frame.0, frame.1, (HDR_LEN + frame.0.msg_len + 4) as nat),
        ),
{
    let end = HDR_LEN + header_of(s).msg_len;
    let head = s.take(HDR_LEN as int);
    let body = s.subrange(HDR_LEN as int, end);
    let trailer = s.subrange(end, end + 4);
    let rest = s.skip(end + 4);
    lemma_header_of_prefix(s, head);
    assert(s == head + body + trailer + rest);
    assert(s.take(end) == head + body);
    lemma_u32_at_shifted(s, end, trailer);
    lemma_three_reads(head, body, trailer, rest);
}

/// A frame is found wherever it lies: after any bytes and before any bytes,
/// a frame begins where it was put. This holds of every frame, whatever its
/// header holds besides sync marker and length.
#[verifier::rlimit(50)]
pub proof fn law_frame_is_found(before: Seq<u8>, head: Seq<u8>, body: Seq<u8>, after: Seq<u8>)
    requires
        opens(head, body),
    ensures
        frame_at(before + frame_bytes(head, body) + after, before.len() as int) == Some(
            (header_of(head), body),
        ),
{
    let crc = crc_of(head + body);
    let trailer = u32_bytes(crc);
    let s = head + body + trailer + after;
    lemma_u32_round_trip(crc);
    assert((before + frame_bytes(head, body) + after).skip(before.len() as int) == s);
    assert(s.take(28) == head);
    lemma_header_of_prefix(s, head);
    let end = 28 + body.len() as int;
    assert(s.take(end) == head + body);
    assert(s.subrange(end, end + 4) == trailer);
    lemma_u32_at_shifted(s, end, trailer);
    assert(s.subrange(28, end) == body);
}

/// The first place of `stream` at or after `from` where a frame may begin;
/// the end of the stream where there is none before it.
pub open spec fn candidate(stream: Seq<u8>, from: int) -> int
    decreases stream.len() - from,
{
    if from >= stream.len() {
        from
    } else if outlook(stream.skip(from)) is Never {
        candidate(stream, from + 1)
    } else {
        from
    }
}

/// What a scanner makes of the bytes it holds: the frame at the first place
/// where one may begin, where it is whole, and the bytes it keeps. It keeps
/// what follows the frame it hands out, and else everything from the first
/// place where a frame may begin.
pub open spec fn next_of(stream: Seq<u8>) -> (Option<(Header, Seq<u8>)>, Seq<u8>) {
    let at = candidate(stream, 0);
    match outlook(stream.skip(at)) {
        Outlook::Frame(hdr, body) => (
            Some((hdr, body)),
            stream.skip(at + HDR_LEN + body.len() + 4),
        ),
        _ => (None, stream.skip(at)),
    }
}

/// A reader that is fed bytes as they come, in pieces of any size, and hands
/// out the frames in them. It needs no frame to start where a read starts:
/// it searches what it holds for the sync marker and drops what cannot begin
/// a frame.
pub struct Scanner {
    buffer: Vec<u8>,
}

impl View for Scanner {
    type V = Seq<u8>;

    closed spec fn view(&self) -> Seq<u8> {
        self.buffer@
    }
}

impl Scanner {
    /// A scanner that holds nothing.
    pub fn new() -> (scanner: Scanner)
        ensures
            scanner@ == Seq::<u8>::empty(),
    {
        Scanner { buffer: Vec::new() }
    }

    /// Takes bytes that a transport delivered.
    pub fn feed(&mut self, data: &[u8])
        ensures
            final(self)@ == old(self)@ + data@,
    {
        let mut more: Vec<u8> = vstd::slice::slice_to_vec(data);
        self.buffer.append(&mut more);
    }

    /// How many bytes the scanner holds.
    pub fn held(&self) -> (n: usize)
        ensures
            n == self@.len(),
    {
        self.buffer.len()
    }

    /// How many bytes are lacking before it can be told whether what the
    /// scanner holds begins with a frame.
    pub fn wanted(&self) -> (n: usize)
        ensures
            n == missing(self@),
    {
        let have: usize = self.buffer.len();
        if have < HDR_LEN as usize {
            return HDR_LEN as usize - have;
        }
        let head = vstd::slice::slice_subrange(self.buffer.as_slice(), 0, HDR_LEN as usize);
        proof {
            lemma_header_of_prefix(self.buffer@, head@);
        }
        match Header::parse(head) {
            None => 0,
            Some(hdr) => {
                let size: usize = HDR_LEN as usize + hdr.msg_len as usize + 4;
                if have < size {
                    size - have
                } else {
                    0
                }
            },
        }
    }

    /// Hands out the next frame, where the scanner holds a whole one at the
    /// first place where a frame may begin. Bytes before that place are
    /// dropped, and so is the frame that is handed out.
    pub fn next_frame(&mut self) -> (frame: Option<(Header, Vec<u8>)>)
        ensures
            final(self)@ == next_of(old(self)@).1,
            match next_of(old(self)@).0 {
                Some((hdr, body)) => frame matches Some(got) && got.0 == hdr && got.1@ == body,
                None => frame is None,
            },
    {
        let len: usize = self.buffer.len();
        let mut at: usize = 0;
        while at < len
            invariant
                len == self.buffer@.len(),
                self.buffer@ == old(self)@,
                at <= len,
                candidate(self.buffer@, 0) == candidate(self.buffer@, at as int),
            decreases len - at,
        {
            match probe(self.buffer.as_slice(), at) {
                Probe::Never => {
                    at = at + 1;
                },
                Probe::Pending => {
                    let kept: Vec<u8> = self.buffer.split_off(at);
                    self.buffer = kept;
                    return None;
                },
                Probe::Frame(hdr, body) => {
                    let kept: Vec<u8> = self.buffer.split_off(
                        at + HDR_LEN as usize + body.len() + 4,
                    );
                    self.buffer = kept;
                    return Some((hdr, body));
                },
            }
        }
        self.buffer = Vec::new();
        assert(old(self)@.skip(len as int) == Seq::<u8>::empty());
        None
    }

    /// Takes the next frame, as `next_frame` does, and judges it as a log.
    /// Returns the log where the frame is one. A frame that is none is
    /// dropped all the same, and so is what stood before it.
    pub fn next_log(&mut self) -> (log: Option<Log>)
        ensures
            final(self)@ == next_of(old(self)@).1,
            match next_of(old(self)@).0 {
                Some((hdr, body)) => {
                    &&& log is Some <==> log_verdict(hdr, body) is Some
                    &&& log is Some ==> log->0@ == log_verdict(hdr, body)->0
                },
                None => log is None,
            },
    {
        match self.next_frame() {
            Some((hdr, body)) => check_log(&hdr, body),
            None => None,
        }
    }

    /// Takes the next frame, as `next_frame` does, and judges it as the
    /// response to the command for `expected`. Returns nothing while the
    /// scanner holds no whole frame.
    pub fn next_response(&mut self, expected: MessageID) -> (r: Option<OEMResult<()>>)
        ensures
            final(self)@ == next_of(old(self)@).1,
            match next_of(old(self)@).0 {
                Some((hdr, body)) => {
                    &&& r matches Some(verdict)
                    &&& verdict is Ok <==> response_verdict(hdr, body, expected) is Ok
                    &&& verdict is Err ==> verdict->Err_0@ == response_verdict(
                        hdr,
                        body,
                        expected,
                    )->Err_0
                },
                None => r is None,
            },
    {
        match self.next_frame() {
            Some((hdr, body)) => Some(check_response(&hdr, body, expected)),
            None => None,
        }
    }
}

/// What never begins a frame does not come to begin one when more bytes
/// arrive.
pub proof fn law_never_stays_never(s: Seq<u8>, more: Seq<u8>)
    requires
        outlook(s) is Never,
    ensures
        outlook(s + more) is Never,
{
    let t = s + more;
    lemma_cut(s, more);
    if s.len() >= HDR_LEN {
        lemma_same_start(s, t);
    }
}

/// A frame that is there stays the same frame when more bytes arrive.
pub proof fn law_frame_stays(s: Seq<u8>, more: Seq<u8>)
    requires
        outlook(s) is Frame,
    ensures
        outlook(s + more) == outlook(s),
{
    lemma_cut(s, more);
    lemma_same_start(s, s + more);
}

/// Two sequences, the second starting with the first, and the first holding
/// a header: they hold the same header, and where the first holds body and
/// check value too, these are the same as well.
proof fn lemma_same_start(s: Seq<u8>, t: Seq<u8>)
    requires
        s.len() >= HDR_LEN,
        s.len() <= t.len(),
        t.take(s.len() as int) == s,
    ensures
        header_of(t) == header_of(s),
        s.len() >= HDR_LEN + header_of(s).msg_len + 4 ==> leading_frame(t) == leading_frame(s),
{
    assert forall|i: int| 0 <= i < s.len() implies t[i] == s[i] by {
        assert(t.take(s.len() as int)[i] == t[i]);
    }
    lemma_header_of_prefix(s, s.take(HDR_LEN as int));
    assert(t.take(HDR_LEN as int) == s.take(HDR_LEN as int));
    lemma_header_of_prefix(t, t.take(HDR_LEN as int));
    let end = HDR_LEN + header_of(s).msg_len;
    if s.len() >= end + 4 {
        assert(t.take(end) == s.take(end));
        assert(t.subrange(HDR_LEN as int, end) == s.subrange(HDR_LEN as int, end));
        lemma_u32_at_shifted(s, end, s.subrange(end, end + 4));
        assert(t.subrange(end, end + 4) == s.subrange(end, end + 4));
        lemma_u32_at_shifted(t, end, t.subrange(end, end + 4));
    }
}

/// Nothing begins a frame between a place and the next candidate after it.
proof fn lemma_before_candidate(stream: Seq<u8>, from: int, at: int)
    requires
        0 <= from <= at < candidate(stream, from),
    ensures
        at < stream.len(),
        outlook(stream.skip(at)) is Never,
    decreases stream.len() - from,
{
    if from < stream.len() && outlook(stream.skip(from)) is Never {
        if at > from {
            lemma_before_candidate(stream, from + 1, at);
        }
    }
}

/// The next candidate lies between the place the search starts from and the
/// end of the stream, and where it lies before the end a frame may begin there.
proof fn lemma_candidate(stream: Seq<u8>, from: int)
    requires
        0 <= from <= stream.len(),
    ensures
        from <= candidate(stream, from) <= stream.len(),
        candidate(stream, from) < stream.len() ==> !(outlook(
            stream.skip(candidate(stream, from)),
        ) is Never),
    decreases stream.len() - from,
{
    if from < stream.len() && outlook(stream.skip(from)) is Never {
        lemma_candidate(stream, from + 1);
    }
}

/// A scanner that hands out no frame lacks bytes: what it keeps cannot be
/// told from yet, and `missing` says how many bytes it takes to tell.
pub proof fn law_no_frame_wants_more(stream: Seq<u8>)
    requires
        next_of(stream).0 is None,
    ensures
        missing(next_of(stream).1) > 0,
        outlook(next_of(stream).1) is Pending,
{
    lemma_candidate(stream, 0);
    let at = candidate(stream, 0);
    if at == stream.len() {
        assert(stream.skip(at).len() == 0);
    }
}

/// What a scanner drops in its search is lost to no frame: at none of the
/// places it passes over does a frame begin, whatever bytes arrive later.
pub proof fn law_nothing_dropped_begins_a_frame(stream: Seq<u8>, at: int, more: Seq<u8>)
    requires
        0 <= at < candidate(stream, 0),
    ensures
        at < stream.len(),
        outlook((stream + more).skip(at)) is Never,
        frame_at(stream + more, at) is None,
{
    lemma_before_candidate(stream, 0, at);
    assert((stream + more).skip(at) == stream.skip(at) + more);
    law_never_stays_never(stream.skip(at), more);
}

/// A scanner that holds a frame, after any bytes and before any bytes,
/// stops its search at the frame or before it.
pub proof fn law_scanner_reaches_frame(
    before: Seq<u8>,
    head: Seq<u8>,
    body: Seq<u8>,
    after: Seq<u8>,
)
    requires
        opens(head, body),
    ensures
        candidate(before + frame_bytes(head, body) + after, 0) <= before.len(),
        outlook((before + frame_bytes(head, body) + after).skip(before.len() as int))
            == Outlook::Frame(header_of(head), body),
{
    let stream = before + frame_bytes(head, body) + after;
    law_frame_is_found(before, head, body, after);
    if candidate(stream, 0) > before.len() {
        lemma_before_candidate(stream, 0, before.len() as int);
    }
}

} // verus!
