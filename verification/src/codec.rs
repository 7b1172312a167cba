use vstd::bytes::lemma_auto_spec_u32_to_from_le_bytes;
use vstd::bytes::spec_u32_from_le_bytes;
use vstd::bytes::spec_u32_to_le_bytes;
use vstd::prelude::*;

verus! {

/// The failure a receiver reports: the peer's stream ended while more bytes
/// of the current message were still owed.
#[derive(Clone, Copy, PartialEq, Eq, Structural, Debug)]
pub enum RecvError {
    /// The peer closed the connection in the middle of a message.
    Disconnected,
}

/// Relies on byteorder's `LittleEndian::write_u32`: it stores the value into
/// the first four bytes of the slice as its little-endian encoding.
#[verifier::external_body]
fn le_u32_encode(x: u32) -> (r: Vec<u8>)
    ensures
        r@ == spec_u32_to_le_bytes(x),
        r@.len() == 4,
{
    let mut buf = vec![0u8; 4];
    <byteorder::LittleEndian as byteorder::ByteOrder>::write_u32(&mut buf, x);
    buf
}

/// Relies on byteorder's `LittleEndian::read_u32`: it reads the first four
/// bytes of the slice as a little-endian unsigned 32-bit integer.
#[verifier::external_body]
fn le_u32_decode(buf: &Vec<u8>) -> (r: u32)
    requires
        buf@.len() >= 4,
    ensures
        r == spec_u32_from_le_bytes(buf@.take(4)),
{
    <byteorder::LittleEndian as byteorder::ByteOrder>::read_u32(buf)
}

/// The framed form of a payload: the four-byte little-endian length prefix
/// followed by the payload bytes.
pub open spec fn spec_frame(payload: Seq<u8>) -> Seq<u8>
    recommends
        payload.len() <= u32::MAX,
{
    spec_u32_to_le_bytes(payload.len() as u32) + payload
}

/// The bytes form exactly one complete frame: the header is full and the
/// byte count matches the length the header announces.
pub open spec fn frame_complete(bytes: Seq<u8>) -> bool {
    bytes.len() >= 4 && bytes.len() - 4 == spec_u32_from_le_bytes(bytes.take(4))
}

/// Parse a complete frame back into its payload.
pub open spec fn spec_unframe(bytes: Seq<u8>) -> Option<Seq<u8>> {
    if frame_complete(bytes) {
        Some(bytes.skip(4))
    } else {
        None
    }
}

/// How many further bytes a receiver holding these bytes still wants: first
/// the rest of the four-byte header, then the rest of the announced payload.
pub open spec fn spec_wanted(bytes: Seq<u8>) -> nat {
    if bytes.len() < 4 {
        (4 - bytes.len()) as nat
    } else {
        let n = spec_u32_from_le_bytes(bytes.take(4)) as int;
        if bytes.len() - 4 <= n {
            (n - (bytes.len() - 4)) as nat
        } else {
            0
        }
    }
}

/// Law: framing a payload and then parsing the framed bytes yields the
/// payload back, for every payload size the protocol can carry.
pub proof fn lemma_frame_round_trip(payload: Seq<u8>)
    requires
        payload.len() <= u32::MAX,
    ensures
        spec_unframe(spec_frame(payload)) == Some(payload),
{
    lemma_auto_spec_u32_to_from_le_bytes();
    let f = spec_frame(payload);
    assert(f.take(4) =~= spec_u32_to_le_bytes(payload.len() as u32));
    assert(f.skip(4) =~= payload);
}

/// Law: a receiver that has seen only part of a frame never takes it for a
/// whole message — every proper prefix of a framed payload still wants at
/// least one more byte, so an accumulate-until-complete loop neither stops
/// early nor hands out a truncated payload.
pub proof fn lemma_partial_frame_incomplete(payload: Seq<u8>, k: int)
    requires
        payload.len() <= u32::MAX,
        0 <= k < spec_frame(payload).len(),
    ensures
        spec_wanted(spec_frame(payload).take(k)) > 0,
        !frame_complete(spec_frame(payload).take(k)),
{
    lemma_auto_spec_u32_to_from_le_bytes();
    let f = spec_frame(payload);
    let q = f.take(k);
    if k >= 4 {
        assert(q.take(4) =~= f.take(4));
        assert(f.take(4) =~= spec_u32_to_le_bytes(payload.len() as u32));
    }
}

/// Frame a payload for the wire: the four-byte little-endian length prefix
/// followed by the payload.
pub fn encode_frame(payload: &Vec<u8>) -> (r: Vec<u8>)
    requires
        payload@.len() <= u32::MAX,
    ensures
        r@ == spec_frame(payload@),
{
    let mut r = le_u32_encode(payload.len() as u32);
    proof {
        assert(r@ =~= spec_u32_to_le_bytes(payload@.len() as u32) + payload@.take(0));
    }
    let mut i: usize = 0;
    while i < payload.len()
        invariant
            i <= payload@.len(),
            payload@.len() <= u32::MAX,
            r@ == spec_u32_to_le_bytes(payload@.len() as u32) + payload@.take(i as int),
        decreases payload@.len() - i,
    {
        r.push(payload[i]);
        proof {
            assert(r@ =~= spec_u32_to_le_bytes(payload@.len() as u32) + payload@.take(
                i as int + 1,
            ));
        }
        i += 1;
    }
    proof {
        assert(r@ =~= spec_frame(payload@));
    }
    r
}

/// Tracks the write loop for one outgoing message: the framed bytes and how
/// many of them the stream has already accepted. The surrounding session
/// keeps writing the pending bytes and recording what each write accepted
/// until nothing remains.
pub struct FrameSender {
    frame: Vec<u8>,
    pos: usize,
}

impl FrameSender {
    /// The full framed message being sent.
    pub closed spec fn frame_bytes(self) -> Seq<u8> {
        self.frame@
    }

    /// How many bytes of the frame the stream has accepted so far.
    pub closed spec fn sent(self) -> nat {
        self.pos as nat
    }

    /// Well-formed: never more bytes accepted than the frame holds.
    pub open spec fn wf(self) -> bool {
        self.sent() <= self.frame_bytes().len()
    }

    /// Start sending a payload: the frame is its length prefix plus its bytes.
    pub fn new(payload: &Vec<u8>) -> (r: FrameSender)
        requires
            payload@.len() <= u32::MAX,
        ensures
            r.wf(),
            r.frame_bytes() == spec_frame(payload@),
            r.sent() == 0,
    {
        FrameSender { frame: encode_frame(payload), pos: 0 }
    }

    /// Number of bytes not yet accepted by the stream.
    pub fn remaining(&self) -> (r: usize)
        requires
            self.wf(),
        ensures
            r == self.frame_bytes().len() - self.sent(),
    {
        self.frame.len() - self.pos
    }

    /// Whether the whole frame has been handed to the stream.
    pub fn done(&self) -> (r: bool)
        requires
            self.wf(),
        ensures
            r == (self.sent() == self.frame_bytes().len()),
    {
        self.pos == self.frame.len()
    }

    /// Copy of the bytes that still have to be written, in order.
    pub fn pending(&self) -> (r: Vec<u8>)
        requires
            self.wf(),
        ensures
            r@ == self.frame_bytes().skip(self.sent() as int),
    {
        let mut out: Vec<u8> = Vec::new();
        let mut i: usize = self.pos;
        while i < self.frame.len()
            invariant
                self.pos <= i <= self.frame@.len(),
                out@ == self.frame@.subrange(self.pos as int, i as int),
            decreases self.frame@.len() - i,
        {
            out.push(self.frame[i]);
            i += 1;
        }
        proof {
            assert(out@ =~= self.frame_bytes().skip(self.sent() as int));
        }
        out
    }

    /// Record that the stream accepted `n` more bytes of the frame.
    pub fn advance(&mut self, n: usize)
        requires
            old(self).wf(),
            n <= old(self).frame_bytes().len() - old(self).sent(),
        ensures
            final(self).wf(),
            final(self).frame_bytes() == old(self).frame_bytes(),
            final(self).sent() == old(self).sent() + n,
    {
        proof {
            // the frame length is a usize, so the new position fits one too
            assert(self.frame.len() == self.frame@.len());
        }
        self.pos = self.pos + n;
    }
}

/// Tracks the read loop for one incoming message: the bytes received so far.
/// The surrounding session keeps reading at most the wanted number of bytes
/// and absorbing them until the frame is complete, and a read that hands back
/// nothing while bytes are still wanted fails the receive as a disconnection
/// instead of looping forever.
pub struct FrameReceiver {
    buf: Vec<u8>,
}

impl FrameReceiver {
    /// All bytes absorbed so far.
    pub closed spec fn bytes(self) -> Seq<u8> {
        self.buf@
    }

    /// Well-formed: the receiver never holds more bytes than one frame.
    pub open spec fn wf(self) -> bool {
        self.bytes().len() > 4 ==> self.bytes().len() - 4 <= spec_u32_from_le_bytes(
            self.bytes().take(4),
        )
    }

    /// A receiver that has seen nothing of its message yet.
    pub fn new() -> (r: FrameReceiver)
        ensures
            r.wf(),
            r.bytes() == Seq::<u8>::empty(),
    {
        FrameReceiver { buf: Vec::new() }
    }

    /// Number of bytes still wanted before the current frame is complete.
    pub fn wanted(&self) -> (r: usize)
        requires
            self.wf(),
        ensures
            r == spec_wanted(self.bytes()),
    {
        if self.buf.len() < 4 {
            4 - self.buf.len()
        } else {
            let n = le_u32_decode(&self.buf);
            (n as usize) - (self.buf.len() - 4)
        }
    }

    /// Whether one whole frame has arrived.
    pub fn complete(&self) -> (r: bool)
        requires
            self.wf(),
        ensures
            r == frame_complete(self.bytes()),
    {
        if self.buf.len() < 4 {
            false
        } else {
            let n = le_u32_decode(&self.buf);
            self.buf.len() - 4 == n as usize
        }
    }

    /// Feed the bytes one read handed back.
    ///
    /// A read that returns no bytes while more are still wanted means the
    /// peer closed the stream: the receive fails with `Disconnected` rather
    /// than waiting for bytes that will never come.
    pub fn absorb(&mut self, chunk: &Vec<u8>) -> (r: Result<(), RecvError>)
        requires
            old(self).wf(),
            chunk@.len() <= spec_wanted(old(self).bytes()),
        ensures
            final(self).wf(),
            r is Err <==> (chunk@.len() == 0 && spec_wanted(old(self).bytes()) > 0),
            r matches Err(e) ==> e == RecvError::Disconnected && *final(self) == *old(self),
            r is Ok ==> final(self).bytes() == old(self).bytes() + chunk@,
    {
        if chunk.len() == 0 {
            let w = self.wanted();
            if w > 0 {
                return Err(RecvError::Disconnected);
            }
        }
        let mut i: usize = 0;
        proof {
            assert(self.buf@ =~= old(self).bytes() + chunk@.take(0));
        }
        while i < chunk.len()
            invariant
                old(self).wf(),
                chunk@.len() <= spec_wanted(old(self).bytes()),
                i <= chunk@.len(),
                self.buf@ == old(self).bytes() + chunk@.take(i as int),
            decreases chunk@.len() - i,
        {
            self.buf.push(chunk[i]);
            proof {
                assert(self.buf@ =~= old(self).bytes() + chunk@.take(i as int + 1));
            }
            i += 1;
        }
        proof {
            assert(self.buf@ =~= old(self).bytes() + chunk@);
            if old(self).bytes().len() >= 4 {
                assert(self.buf@.take(4) =~= old(self).bytes().take(4));
            }
        }
        Ok(())
    }

    /// Copy out the payload of the completed frame.
    pub fn payload(&self) -> (r: Vec<u8>)
        requires
            self.wf(),
            frame_complete(self.bytes()),
        ensures
            r@ == self.bytes().skip(4),
            spec_unframe(self.bytes()) == Some(r@),
    {
        let mut out: Vec<u8> = Vec::new();
        let mut i: usize = 4;
        while i < self.buf.len()
            invariant
                4 <= i <= self.buf@.len(),
                4 <= self.buf@.len(),
                out@ == self.buf@.subrange(4, i as int),
            decreases self.buf@.len() - i,
        {
            out.push(self.buf[i]);
            i += 1;
        }
        proof {
            assert(out@ =~= self.bytes().skip(4));
        }
        out
    }
}

} // verus!
