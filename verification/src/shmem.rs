use vstd::prelude::*;

use crate::barrier::barrier_read;
use crate::barrier::barrier_write;
use crate::err::ScmiError;
use crate::protocol::spec_pack;
use crate::protocol::ScmiMsgHdr;
use crate::protocol::Xfer;

verus! {

/// Size of the fixed mailbox header that precedes the payload region.
pub const SHMEM_HEADER_SIZE: usize = 28;

/// Byte offset of the channel-status word.
pub const OFF_CHANNEL_STATUS: usize = 4;

/// Byte offset of the flags word.
pub const OFF_FLAGS: usize = 16;

/// Byte offset of the length word.
pub const OFF_LENGTH: usize = 20;

/// Byte offset of the packed message header word.
pub const OFF_MSG_HEADER: usize = 24;

/// Byte offset of the payload region; a reply's status word sits at its
/// start.
pub const OFF_PAYLOAD: usize = 28;

/// The two status bits of the channel-status word: 0 is FREE, 0b10 is
/// ERROR.
pub const CHANNEL_STATUS_MASK: u32 = 0x3;

/// The little-endian 32-bit value held by four bytes.
pub open spec fn le32(b0: u8, b1: u8, b2: u8, b3: u8) -> u32 {
    (b0 as u32) | ((b1 as u32) << 8u32) | ((b2 as u32) << 16u32) | ((b3 as u32) << 24u32)
}

/// The little-endian word at byte offset `off` of a memory image.
pub open spec fn word_at(m: Seq<u8>, off: int) -> u32 {
    le32(m[off], m[off + 1], m[off + 2], m[off + 3])
}

/// The four little-endian bytes of a 32-bit value.
pub open spec fn spec_u32_bytes(v: u32) -> Seq<u8> {
    seq![(v & 0xff) as u8, ((v >> 8u32) & 0xff) as u8, ((v >> 16u32) & 0xff) as u8, ((v
        >> 24u32) & 0xff) as u8]
}

/// Splitting a word into its little-endian bytes and reassembling them
/// gives the word back.
pub proof fn lemma_le32_of_bytes(v: u32)
    by (bit_vector)
    ensures
        le32(
            (v & 0xff) as u8,
            ((v >> 8u32) & 0xff) as u8,
            ((v >> 16u32) & 0xff) as u8,
            ((v >> 24u32) & 0xff) as u8,
        ) == v,
{
}

/// The eight little-endian bytes of a 64-bit value.
pub open spec fn spec_u64_bytes(v: u64) -> Seq<u8> {
    seq![(v & 0xff) as u8, ((v >> 8u64) & 0xff) as u8, ((v >> 16u64) & 0xff) as u8, ((v
        >> 24u64) & 0xff) as u8, ((v >> 32u64) & 0xff) as u8, ((v >> 40u64) & 0xff) as u8, ((v
        >> 48u64) & 0xff) as u8, ((v >> 56u64) & 0xff) as u8]
}

/// Encodes a 32-bit value as its four little-endian bytes.
pub fn u32_to_le_vec(v: u32) -> (r: Vec<u8>)
    ensures
        r@ == spec_u32_bytes(v),
{
    let mut r: Vec<u8> = Vec::new();
    r.push((v & 0xff) as u8);
    r.push(((v >> 8u32) & 0xff) as u8);
    r.push(((v >> 16u32) & 0xff) as u8);
    r.push(((v >> 24u32) & 0xff) as u8);
    proof {
        assert(r@ =~= spec_u32_bytes(v));
    }
    r
}

/// Encodes a 64-bit value as its eight little-endian bytes.
pub fn u64_to_le_vec(v: u64) -> (r: Vec<u8>)
    ensures
        r@ == spec_u64_bytes(v),
{
    let mut r: Vec<u8> = Vec::new();
    r.push((v & 0xff) as u8);
    r.push(((v >> 8u64) & 0xff) as u8);
    r.push(((v >> 16u64) & 0xff) as u8);
    r.push(((v >> 24u64) & 0xff) as u8);
    r.push(((v >> 32u64) & 0xff) as u8);
    r.push(((v >> 40u64) & 0xff) as u8);
    r.push(((v >> 48u64) & 0xff) as u8);
    r.push(((v >> 56u64) & 0xff) as u8);
    proof {
        assert(r@ =~= spec_u64_bytes(v));
    }
    r
}

/// The flags word a transfer asks for: bit zero enables the completion
/// interrupt, so it is set exactly when the transfer does not poll.
pub open spec fn spec_flags(hdr: ScmiMsgHdr) -> u32 {
    if hdr.poll_completion {
        0u32
    } else {
        1u32
    }
}

/// A mailbox image that holds a serialized request: channel status cleared
/// to FREE, flags from the transfer's completion preference, the length
/// word counting the header word plus the payload, the packed message
/// header, and the outbound payload at the start of the payload region.
pub open spec fn holds_request(m: Seq<u8>, hdr: ScmiMsgHdr, tx: Seq<u8>) -> bool {
    &&& word_at(m, OFF_CHANNEL_STATUS as int) == 0u32
    &&& word_at(m, OFF_FLAGS as int) == spec_flags(hdr)
    &&& word_at(m, OFF_LENGTH as int) as int == 4 + tx.len()
    &&& word_at(m, OFF_MSG_HEADER as int) == spec_pack(hdr)
    &&& m.subrange(28, 28 + tx.len() as int) == tx
}

/// The shared-memory mailbox, modelled as the byte image of its window.
///
/// All layout logic of the channel lives here.  The raw window on a real
/// device is kept in sync with this image by an accessor that owns the
/// device address; that accessor also performs the cache maintenance
/// (clean before signalling, invalidate before reading) that the byte
/// image cannot express.
pub struct Shmem {
    mem: Vec<u8>,
    bus_address: usize,
}

impl View for Shmem {
    type V = Seq<u8>;

    closed spec fn view(&self) -> Seq<u8> {
        self.mem@
    }
}

impl Shmem {
    /// The window always has room for the fixed header and the status word
    /// of a reply, and its size fits the 32-bit length field.
    pub open spec fn wf(&self) -> bool {
        32 <= self@.len() <= 0xffff_ffffu32
    }

    /// The address under which the remote side knows this window.
    pub closed spec fn spec_bus_address(&self) -> usize {
        self.bus_address
    }

    /// Builds a zeroed mailbox window of `size` bytes.  Rejects a window
    /// that cannot hold the fixed header and a reply status word, or whose
    /// size does not fit the length field.
    pub fn new(size: usize, bus_address: usize) -> (r: Result<Shmem, ScmiError>)
        ensures
            match r {
                Ok(s) => {
                    &&& 32 <= size <= 0xffff_ffffu32
                    &&& s.wf()
                    &&& s@ == Seq::new(size as nat, |i: int| 0u8)
                    &&& s.spec_bus_address() == bus_address
                },
                Err(e) => {
                    &&& e == ScmiError::InvalidParameters
                    &&& !(32 <= size <= 0xffff_ffffu32)
                },
            },
    {
        if size < 32 || size > 0xffff_ffffusize {
            return Err(ScmiError::InvalidParameters);
        }
        Ok(Shmem { mem: crate::protocol::zeroed_buffer(size), bus_address })
    }

    /// The size of the window in bytes.
    pub fn size(&self) -> (r: usize)
        ensures
            r == self@.len(),
    {
        self.mem.len()
    }

    /// The address under which the remote side knows this window.
    pub fn bus_address(&self) -> (r: usize)
        ensures
            r == self.spec_bus_address(),
    {
        self.bus_address
    }

    /// A copy of the whole window image, for an accessor that pushes it to
    /// a device.
    pub fn snapshot(&self) -> (r: Vec<u8>)
        requires
            self.wf(),
        ensures
            r@ == self@,
    {
        let n = self.mem.len();
        let mut r: Vec<u8> = Vec::new();
        let mut i: usize = 0;
        while i < n
            invariant
                self.wf(),
                i <= n,
                n == self@.len(),
                r@.len() == i,
                forall|j: int| 0 <= j < i ==> r@[j] == self@[j],
            decreases n - i,
        {
            r.push(self.mem[i]);
            i += 1;
        }
        proof {
            assert(r@ =~= self@);
        }
        r
    }

    /// Replaces the whole window image with bytes an accessor pulled from
    /// a device.  Rejects an image of the wrong size.
    pub fn restore(&mut self, bytes: &Vec<u8>) -> (r: Result<(), ScmiError>)
        requires
            old(self).wf(),
        ensures
            final(self).wf(),
            final(self)@.len() == old(self)@.len(),
            final(self).spec_bus_address() == old(self).spec_bus_address(),
            match r {
                Ok(()) => {
                    &&& bytes@.len() == old(self)@.len()
                    &&& final(self)@ == bytes@
                },
                Err(e) => {
                    &&& e == ScmiError::InvalidParameters
                    &&& bytes@.len() != old(self)@.len()
                    &&& final(self)@ == old(self)@
                },
            },
    {
        let n = self.mem.len();
        if bytes.len() != n {
            return Err(ScmiError::InvalidParameters);
        }
        let mut i: usize = 0;
        while i < n
            invariant
                self.wf(),
                i <= n,
                n == self@.len(),
                n == bytes@.len(),
                self.spec_bus_address() == old(self).spec_bus_address(),
                forall|j: int| 0 <= j < i ==> self@[j] == bytes@[j],
            decreases n - i,
        {
            self.mem.set(i, bytes[i]);
            i += 1;
        }
        proof {
            assert(self@ =~= bytes@);
        }
        Ok(())
    }

    /// Reads the little-endian word at byte offset `off`.
    fn get_u32(&self, off: usize) -> (r: u32)
        requires
            self.wf(),
            off + 4 <= self@.len(),
        ensures
            r == word_at(self@, off as int),
    {
        let b0 = self.mem[off];
        let b1 = self.mem[off + 1];
        let b2 = self.mem[off + 2];
        let b3 = self.mem[off + 3];
        (b0 as u32) | ((b1 as u32) << 8u32) | ((b2 as u32) << 16u32) | ((b3 as u32) << 24u32)
    }

    /// Writes `v` as a little-endian word at byte offset `off`.
    fn set_u32(&mut self, off: usize, v: u32)
        requires
            old(self).wf(),
            off + 4 <= old(self)@.len(),
        ensures
            final(self).wf(),
            final(self)@.len() == old(self)@.len(),
            final(self).spec_bus_address() == old(self).spec_bus_address(),
            word_at(final(self)@, off as int) == v,
            final(self)@.subrange(off as int, off as int + 4) == spec_u32_bytes(v),
            forall|i: int|
                0 <= i < old(self)@.len() && !(off <= i < off + 4) ==> final(self)@[i]
                    == old(self)@[i],
    {
        let b0 = (v & 0xff) as u8;
        let b1 = ((v >> 8u32) & 0xff) as u8;
        let b2 = ((v >> 16u32) & 0xff) as u8;
        let b3 = ((v >> 24u32) & 0xff) as u8;
        self.mem.set(off, b0);
        self.mem.set(off + 1, b1);
        self.mem.set(off + 2, b2);
        self.mem.set(off + 3, b3);
        proof {
            lemma_le32_of_bytes(v);
            assert(self.mem@.subrange(off as int, off as int + 4) =~= spec_u32_bytes(v));
        }
    }

    /// The channel-status word.
    pub fn channel_status(&self) -> (r: u32)
        requires
            self.wf(),
        ensures
            r == word_at(self@, OFF_CHANNEL_STATUS as int),
    {
        self.get_u32(OFF_CHANNEL_STATUS)
    }

    /// Sets the channel-status word; this is the remote side of the
    /// handshake (FREE when done, ERROR on failure), so it is exposed for
    /// transports and for modelling the remote agent.
    pub fn set_channel_status(&mut self, v: u32)
        requires
            old(self).wf(),
        ensures
            final(self).wf(),
            final(self)@.len() == old(self)@.len(),
            final(self).spec_bus_address() == old(self).spec_bus_address(),
            word_at(final(self)@, OFF_CHANNEL_STATUS as int) == v,
            forall|i: int|
                0 <= i < old(self)@.len() && !(OFF_CHANNEL_STATUS <= i < OFF_CHANNEL_STATUS
                    + 4) ==> final(self)@[i] == old(self)@[i],
    {
        self.set_u32(OFF_CHANNEL_STATUS, v)
    }

    /// The flags word: bit zero is the interrupt-enable bit.
    pub fn flags(&self) -> (r: u32)
        requires
            self.wf(),
        ensures
            r == word_at(self@, OFF_FLAGS as int),
    {
        self.get_u32(OFF_FLAGS)
    }

    /// The length word: payload bytes plus the header word.
    pub fn length(&self) -> (r: u32)
        requires
            self.wf(),
        ensures
            r == word_at(self@, OFF_LENGTH as int),
    {
        self.get_u32(OFF_LENGTH)
    }

    /// Sets the length word; the remote agent does this when it writes a
    /// reply, so it is exposed for transports and for modelling the remote
    /// agent.
    pub fn set_length(&mut self, v: u32)
        requires
            old(self).wf(),
        ensures
            final(self).wf(),
            final(self)@.len() == old(self)@.len(),
            final(self).spec_bus_address() == old(self).spec_bus_address(),
            word_at(final(self)@, OFF_LENGTH as int) == v,
            forall|i: int|
                0 <= i < old(self)@.len() && !(OFF_LENGTH <= i < OFF_LENGTH + 4) ==> final(self)@[i] == old(self)@[i],
    {
        self.set_u32(OFF_LENGTH, v)
    }

    /// The status word the remote agent prepends to every reply, at the
    /// start of the payload region.
    pub fn reply_status(&self) -> (r: u32)
        requires
            self.wf(),
        ensures
            r == word_at(self@, OFF_PAYLOAD as int),
    {
        self.get_u32(OFF_PAYLOAD)
    }

    /// The packed message header word.
    pub fn msg_header(&self) -> (r: u32)
        requires
            self.wf(),
        ensures
            r == word_at(self@, OFF_MSG_HEADER as int),
    {
        self.get_u32(OFF_MSG_HEADER)
    }

    /// Establishes the FREE state: channel status, flags, length and
    /// message header all zero.
    pub fn init(&mut self)
        requires
            old(self).wf(),
        ensures
            final(self).wf(),
            final(self)@.len() == old(self)@.len(),
            final(self).spec_bus_address() == old(self).spec_bus_address(),
            word_at(final(self)@, OFF_CHANNEL_STATUS as int) == 0u32,
            word_at(final(self)@, OFF_FLAGS as int) == 0u32,
            word_at(final(self)@, OFF_LENGTH as int) == 0u32,
            word_at(final(self)@, OFF_MSG_HEADER as int) == 0u32,
            forall|i: int|
                0 <= i < old(self)@.len() && !(4 <= i < 8) && !(16 <= i < 28) ==> final(self)@[i] == old(self)@[i],
    {
        self.set_u32(OFF_CHANNEL_STATUS, 0);
        self.set_u32(OFF_FLAGS, 0);
        self.set_u32(OFF_LENGTH, 0);
        self.set_u32(OFF_MSG_HEADER, 0);
    }

    /// Copies `buff` to the start of the payload region with a write
    /// barrier after the copy, so the remote agent never observes a
    /// half-written payload ahead of the data.
    pub fn write_payload(&mut self, buff: &Vec<u8>)
        requires
            old(self).wf(),
            28 + buff@.len() <= old(self)@.len(),
        ensures
            final(self).wf(),
            final(self)@.len() == old(self)@.len(),
            final(self).spec_bus_address() == old(self).spec_bus_address(),
            final(self)@.subrange(28, 28 + buff@.len() as int) == buff@,
            forall|i: int|
                0 <= i < old(self)@.len() && !(28 <= i < 28 + buff@.len()) ==> final(self)@[i] == old(self)@[i],
    {
        let n = buff.len();
        let mut i: usize = 0;
        while i < n
            invariant
                self.wf(),
                i <= n,
                28 + n <= self@.len(),
                self@.len() == old(self)@.len(),
                self.spec_bus_address() == old(self).spec_bus_address(),
                n == buff@.len(),
                forall|j: int| 0 <= j < i ==> self@[28 + j] == buff@[j],
                forall|j: int|
                    0 <= j < old(self)@.len() && !(28 <= j < 28 + i) ==> self@[j] == old(
                        self,
                    )@[j],
            decreases n - i,
        {
            self.mem.set(28 + i, buff[i]);
            i += 1;
        }
        barrier_write();
        proof {
            assert(self@.subrange(28, 28 + buff@.len() as int) =~= buff@);
        }
    }

    /// Reads `len` payload bytes starting `skip` bytes into the payload
    /// region, with a read barrier after the copy.
    pub fn read_payload(&self, skip: usize, len: usize) -> (r: Vec<u8>)
        requires
            self.wf(),
            28 + skip + len <= self@.len(),
        ensures
            r@ == self@.subrange(28 + skip as int, 28 + skip as int + len as int),
    {
        let mut r: Vec<u8> = Vec::new();
        let mut i: usize = 0;
        while i < len
            invariant
                self.wf(),
                i <= len,
                28 + skip + len <= self@.len(),
                r@.len() == i,
                forall|j: int| 0 <= j < i ==> r@[j] == self@[28 + skip + j],
            decreases len - i,
        {
            r.push(self.mem[28 + skip + i]);
            i += 1;
        }
        barrier_read();
        proof {
            assert(r@ =~= self@.subrange(28 + skip as int, 28 + skip as int + len as int));
        }
        r
    }

    /// Serializes a request into the mailbox.
    ///
    /// The channel must read FREE; a busy or errored channel is reported
    /// as `ChannelBusy` for the caller to retry, rather than spun on, and
    /// a payload that does not fit the window is rejected as `Oversize`.
    /// On success the image holds exactly the transfer's request: status
    /// cleared, flags from the transfer's completion preference, length,
    /// packed header, and the outbound payload.
    pub fn tx_prepare(&mut self, xfer: &Xfer) -> (r: Result<(), ScmiError>)
        requires
            old(self).wf(),
        ensures
            final(self).wf(),
            final(self)@.len() == old(self)@.len(),
            final(self).spec_bus_address() == old(self).spec_bus_address(),
            match r {
                Ok(()) => {
                    &&& word_at(old(self)@, OFF_CHANNEL_STATUS as int) & CHANNEL_STATUS_MASK
                        == 0u32
                    &&& xfer.tx@.len() + 28 <= old(self)@.len()
                    &&& holds_request(final(self)@, xfer.hdr, xfer.tx@)
                    &&& forall|i: int|
                        0 <= i < old(self)@.len() && !(4 <= i < 8) && !(16 <= i < 28) && !(28
                            <= i < 28 + xfer.tx@.len()) ==> final(self)@[i] == old(self)@[i]
                },
                Err(e) => {
                    &&& final(self)@ == old(self)@
                    &&& (e == ScmiError::ChannelBusy <==> word_at(
                        old(self)@,
                        OFF_CHANNEL_STATUS as int,
                    ) & CHANNEL_STATUS_MASK != 0u32)
                    &&& (e == ScmiError::Oversize <==> (word_at(
                        old(self)@,
                        OFF_CHANNEL_STATUS as int,
                    ) & CHANNEL_STATUS_MASK == 0u32 && xfer.tx@.len() + 28 > old(self)@.len()))
                    &&& (e == ScmiError::ChannelBusy || e == ScmiError::Oversize)
                },
            },
    {
        let status = self.get_u32(OFF_CHANNEL_STATUS);
        if status & CHANNEL_STATUS_MASK != 0 {
            return Err(ScmiError::ChannelBusy);
        }
        let payload_room = self.mem.len() - 28;
        if xfer.tx.len() > payload_room {
            return Err(ScmiError::Oversize);
        }
        let tx_len = xfer.tx.len();
        self.set_u32(OFF_CHANNEL_STATUS, 0);
        let flags: u32 = if xfer.hdr.poll_completion {
            0
        } else {
            1
        };
        self.set_u32(OFF_FLAGS, flags);
        self.set_u32(OFF_LENGTH, 4 + (tx_len as u32));
        self.set_u32(OFF_MSG_HEADER, xfer.hdr.pack());
        self.write_payload(&xfer.tx);
        Ok(())
    }
}

/// *Mailbox serialization.*  The message region that `tx_prepare` writes
/// is a function of the transfer alone: whatever two windows held before,
/// once each holds the same transfer's request their status, flags, length
/// and header words and their payload bytes agree.  A later transaction
/// therefore overwrites an earlier one completely; a reader never sees a
/// mix of two requests.
pub proof fn lemma_request_region_determined(
    m1: Seq<u8>,
    m2: Seq<u8>,
    hdr: ScmiMsgHdr,
    tx: Seq<u8>,
)
    requires
        holds_request(m1, hdr, tx),
        holds_request(m2, hdr, tx),
    ensures
        word_at(m1, OFF_CHANNEL_STATUS as int) == word_at(m2, OFF_CHANNEL_STATUS as int),
        word_at(m1, OFF_FLAGS as int) == word_at(m2, OFF_FLAGS as int),
        word_at(m1, OFF_LENGTH as int) == word_at(m2, OFF_LENGTH as int),
        word_at(m1, OFF_MSG_HEADER as int) == word_at(m2, OFF_MSG_HEADER as int),
        m1.subrange(28, 28 + tx.len() as int) == m2.subrange(28, 28 + tx.len() as int),
{
}

} // verus!
