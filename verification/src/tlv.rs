//! A framing layer: tag-length-value records over a stream of bytes.
//!
//! A record is a header of two bytes, the tag and the length of the value,
//! followed by that many bytes of value. The layer's task asks its driver for
//! bytes until a whole record has arrived, and turns a tag and a value into
//! the bytes of a record.

use crate::view_of;
use crate::Sans;
use crate::SansHandle;
use crate::SansResponse;
use crate::Task;
use vstd::prelude::*;

verus! {

/// What the framing layer asks of its driver.
#[derive(Debug, PartialEq, Eq)]
pub enum TlvRequest {
    /// More bytes from the stream.
    ReadPayload,
    /// These bytes are to be written to the stream.
    WritePayload { payload: Vec<u8> },
    /// A whole record has arrived.
    Read { tag: u8, val: Vec<u8> },
}

/// What the driver answers the framing layer.
#[derive(Debug, PartialEq, Eq)]
pub enum TlvResponse {
    /// Bytes that were read from the stream, possibly none.
    ReadPayload { payload: Vec<u8> },
    /// A record to be framed.
    Write { tag: u8, val: Vec<u8> },
}

/// A request of the framing layer, with its bytes as sequences.
pub enum TlvRequestView {
    ReadPayload,
    WritePayload { payload: Seq<u8> },
    Read { tag: u8, val: Seq<u8> },
}

/// A response to the framing layer, with its bytes as sequences.
pub enum TlvResponseView {
    ReadPayload { payload: Seq<u8> },
    Write { tag: u8, val: Seq<u8> },
}

impl View for TlvRequest {
    type V = TlvRequestView;

    open spec fn view(&self) -> TlvRequestView {
        match *self {
            TlvRequest::ReadPayload => TlvRequestView::ReadPayload,
            TlvRequest::WritePayload { payload } => TlvRequestView::WritePayload {
                payload: payload@,
            },
            TlvRequest::Read { tag, val } => TlvRequestView::Read { tag, val: val@ },
        }
    }
}

impl View for TlvResponse {
    type V = TlvResponseView;

    open spec fn view(&self) -> TlvResponseView {
        match *self {
            TlvResponse::ReadPayload { payload } => TlvResponseView::ReadPayload {
                payload: payload@,
            },
            TlvResponse::Write { tag, val } => TlvResponseView::Write { tag, val: val@ },
        }
    }
}

/// The length of the record that `buf` begins with, header included, where
/// `buf` holds all of it.
pub open spec fn record_len(buf: Seq<u8>) -> Option<int> {
    if buf.len() >= 2 && buf.len() >= buf[1] + 2 {
        Some(buf[1] + 2)
    } else {
        None
    }
}

/// The bytes of the record with this tag and value. The length byte holds the
/// value's length modulo 256.
pub open spec fn packet(tag: u8, val: Seq<u8>) -> Seq<u8> {
    seq![tag, (val.len() % 256) as u8] + val
}

/// One step of the framing layer over the bytes `pending` that have arrived
/// and belong to no record yet: the bytes left after the step, and the request
/// that the step ends with.
pub open spec fn tlv_step(pending: Seq<u8>, response: Option<TlvResponseView>) -> (
    Seq<u8>,
    TlvRequestView,
) {
    match response {
        None => (pending, TlvRequestView::ReadPayload),
        Some(TlvResponseView::ReadPayload { payload }) => {
            let buf = pending + payload;
            match record_len(buf) {
                Some(n) => (
                    buf.subrange(n, buf.len() as int),
                    TlvRequestView::Read { tag: buf[0], val: buf.subrange(2, n) },
                ),
                None => (buf, TlvRequestView::ReadPayload),
            }
        },
        Some(TlvResponseView::Write { tag, val }) => (
            pending,
            TlvRequestView::WritePayload { payload: packet(tag, val) },
        ),
    }
}

/// Appends `src` to `dst`.
pub(crate) fn extend(dst: &mut Vec<u8>, src: &[u8])
    ensures
        final(dst)@ == old(dst)@ + src@,
{
    let mut i: usize = 0;
    while i < src.len()
        invariant
            i <= src@.len(),
            dst@ == old(dst)@ + src@.subrange(0, i as int),
        decreases src@.len() - i,
    {
        dst.push(src[i]);
        i += 1;
    }
}

/// The bytes that have arrived and belong to no record yet.
pub struct Cache {
    read: Vec<u8>,
}

impl View for Cache {
    type V = Seq<u8>;

    /// The bytes held, oldest first.
    closed spec fn view(&self) -> Seq<u8> {
        self.read@
    }
}

impl Cache {
    /// A cache without bytes.
    pub fn new() -> (cache: Self)
        ensures
            cache@ == Seq::<u8>::empty(),
    {
        Cache { read: Vec::new() }
    }

    /// Takes in `payload` and returns the first record, whole, if the bytes
    /// held now begin with one. The record's bytes leave the cache; bytes
    /// that make no whole record stay for the next call.
    pub fn read_packet(&mut self, payload: &[u8]) -> (r: Option<Vec<u8>>)
        ensures
            match record_len(old(self)@ + payload@) {
                Some(n) => {
                    &&& r is Some
                    &&& r.unwrap()@ == (old(self)@ + payload@).subrange(0, n)
                    &&& final(self)@ == (old(self)@ + payload@).subrange(
                        n,
                        (old(self)@ + payload@).len() as int,
                    )
                },
                None => r is None && final(self)@ == old(self)@ + payload@,
            },
    {
        extend(&mut self.read, payload);
        if self.read.len() < 2 {
            return None;
        }
        let len: usize = self.read[1] as usize;
        if self.read.len() < len + 2 {
            return None;
        }
        let mut record = self.read.split_off(len + 2);
        core::mem::swap(&mut self.read, &mut record);
        Some(record)
    }

    /// The bytes of the record with this tag and value.
    pub fn write_packet(&self, tag: u8, val: &[u8]) -> (r: Vec<u8>)
        ensures
            r@ == packet(tag, val@),
    {
        let mut packet: Vec<u8> = Vec::new();
        packet.push(tag);
        packet.push((val.len() % 256) as u8);
        extend(&mut packet, val);
        packet
    }
}

/// The framing layer's task.
pub struct Tlv {
    sans: Sans<TlvRequest, TlvResponse>,
    cache: Cache,
}

impl View for Tlv {
    type V = Seq<u8>;

    /// The bytes that the task holds and that belong to no record yet.
    closed spec fn view(&self) -> Seq<u8> {
        self.cache@
    }
}

impl Tlv {
    /// The task at its start, with no bytes held.
    pub fn new(sans: Sans<TlvRequest, TlvResponse>) -> (task: Self)
        ensures
            task@ == Seq::<u8>::empty(),
    {
        Tlv { sans, cache: Cache::new() }
    }

    /// Answers bytes from the stream: a whole record where one has arrived,
    /// else the request for more bytes.
    fn read_payload(&mut self, payload: &[u8]) -> (request: TlvRequest)
        ensures
            (final(self)@, request@) == tlv_step(
                old(self)@,
                Some(TlvResponseView::ReadPayload { payload: payload@ }),
            ),
    {
        match self.cache.read_packet(payload) {
            Some(record) => {
                let mut record = record;
                let tag: u8 = record[0];
                let val = record.split_off(2);
                proof {
                    let buf = old(self)@ + payload@;
                    let n = record_len(buf).unwrap();
                    assert(val@ =~= buf.subrange(2, n));
                }
                TlvRequest::Read { tag, val }
            },
            None => TlvRequest::ReadPayload,
        }
    }
}

impl Task<TlvRequest, TlvResponse> for Tlv {
    /// The task makes the step that `tlv_step` describes, and never ends.
    open spec fn step(
        &self,
        response: Option<TlvResponse>,
        next: Self,
        request: Option<TlvRequest>,
    ) -> bool {
        (next@, view_of(request)) == (
            tlv_step(self@, view_of(response)).0,
            Some(tlv_step(self@, view_of(response)).1),
        )
    }

    fn resume(&mut self, response: SansResponse<'_, TlvResponse>) -> (call: Option<
        SansHandle<TlvRequest, TlvResponse>,
    >) {
        let request = match response.response() {
            None => TlvRequest::ReadPayload,
            Some(TlvResponse::ReadPayload { payload }) => self.read_payload(payload.as_slice()),
            Some(TlvResponse::Write { tag, val }) => TlvRequest::WritePayload {
                payload: self.cache.write_packet(*tag, val.as_slice()),
            },
        };
        Some(self.sans.handle(response, request))
    }
}

} // verus!
