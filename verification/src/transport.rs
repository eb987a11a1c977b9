use vstd::prelude::*;

use crate::err::spec_status_result;
use crate::err::ScmiError;
use crate::protocol::ScmiMsgHdr;
use crate::protocol::Xfer;
use crate::shmem::word_at;
use crate::shmem::Shmem;
use crate::shmem::OFF_MSG_HEADER;
use crate::shmem::OFF_PAYLOAD;

verus! {

/// The wire fields of a header that a transport operation never touches:
/// everything but the status word the reply fills in.
pub open spec fn hdr_wire_fields_kept(a: ScmiMsgHdr, b: ScmiMsgHdr) -> bool {
    &&& a.id == b.id
    &&& a.protocol_id == b.protocol_id
    &&& a.type_ == b.type_
    &&& a.seq == b.seq
    &&& a.poll_completion == b.poll_completion
}

/// The mechanism that hands a prepared mailbox to the remote agent and
/// later reads the reply back out of it.
///
/// A transport is free to fail either operation; what it may not do is
/// resize the mailbox window, drive the transfer's state machine, or
/// touch the wire fields of the transfer's header.  A successful fetch
/// must leave a success status word in the transfer and may only shrink
/// the reply buffer to the bytes actually received.
pub trait Transport {
    /// Most transfers this transport can have outstanding.
    fn max_msg(&self) -> usize;

    /// Largest payload this transport can carry.
    fn max_msg_size(&self) -> usize;

    /// Whether a triggering call is guaranteed complete by the time it
    /// returns.
    fn sync_cmds_completed_on_ret(&self) -> bool;

    /// Whether channel `idx` is wired up.
    fn chan_available(&self, idx: usize) -> bool;

    /// Whether completion must be polled for because no completion
    /// interrupt exists.
    fn no_completion_irq(&self) -> bool;

    /// Serializes the request into the mailbox and signals the remote
    /// agent.
    fn send_message(&mut self, shmem: &mut Shmem, xfer: &Xfer) -> (r: Result<(), ScmiError>)
        requires
            old(shmem).wf(),
        ensures
            final(shmem).wf(),
            final(shmem)@.len() == old(shmem)@.len(),
    ;

    /// Reads the remote agent's reply out of the mailbox into the
    /// transfer.
    fn fetch_response(&mut self, shmem: &mut Shmem, xfer: &mut Xfer) -> (r: Result<
        (),
        ScmiError,
    >)
        requires
            old(shmem).wf(),
        ensures
            final(shmem).wf(),
            final(shmem)@.len() == old(shmem)@.len(),
            hdr_wire_fields_kept(final(xfer).hdr, old(xfer).hdr),
            final(xfer).status == old(xfer).status,
            final(xfer).tx@ == old(xfer).tx@,
            final(xfer).rx@.len() <= old(xfer).rx@.len(),
            r matches Ok(_) ==> spec_status_result(
                final(xfer).hdr.status as i32 as int,
            ) matches Ok(_),
    ;
}

/// The reply bytes a fetch keeps: what the length field claims beyond the
/// status word and the echoed header, bounded by the caller's reply buffer
/// and by the window itself.
pub open spec fn spec_reply_len(m: Seq<u8>, rx_cap: nat) -> int {
    let claimed = word_at(m, 20) as int - 8;
    let c0 = if claimed < 0 {
        0
    } else {
        claimed
    };
    let c1 = if c0 > rx_cap {
        rx_cap as int
    } else {
        c0
    };
    let avail = m.len() - 32;
    if c1 > avail {
        avail
    } else {
        c1
    }
}

/// Whether the header word echoed in the mailbox carries the sequence
/// token of the transfer that is waiting for this reply.  The platform
/// returns the whole message header unmodified, so a mismatch means the
/// reply belongs to some other exchange.
pub open spec fn spec_reply_token_ok(m: Seq<u8>, seq: u16) -> bool {
    (word_at(m, OFF_MSG_HEADER as int) >> 18u32) & 0x3ff == (seq as u32) & 0x3ff
}

/// The reply path shared by every transport: checks that the echoed
/// header carries this transfer's sequence token (a stale or out-of-order
/// reply is rejected as a communication error, touching nothing), reads
/// the status word from the head of the payload region into the transfer,
/// maps it through the fixed status table and fails fast on an error
/// status, then copies the reply bytes — as many as the length field
/// claims, but never more than the reply buffer holds nor than the window
/// can carry — and truncates the reply buffer to what was received.
pub fn fetch_from_shmem(shmem: &Shmem, xfer: &mut Xfer) -> (r: Result<(), ScmiError>)
    requires
        shmem.wf(),
    ensures
        hdr_wire_fields_kept(final(xfer).hdr, old(xfer).hdr),
        final(xfer).status == old(xfer).status,
        final(xfer).tx@ == old(xfer).tx@,
        final(xfer).transfer_id == old(xfer).transfer_id,
        final(xfer).pending == old(xfer).pending,
        final(xfer).busy == old(xfer).busy,
        final(xfer).rx@.len() <= old(xfer).rx@.len(),
        !spec_reply_token_ok(shmem@, old(xfer).hdr.seq) ==> {
            &&& r == Err::<(), ScmiError>(ScmiError::CommsError)
            &&& final(xfer).hdr.status == old(xfer).hdr.status
            &&& final(xfer).rx@ == old(xfer).rx@
        },
        spec_reply_token_ok(shmem@, old(xfer).hdr.seq) ==> {
            &&& final(xfer).hdr.status == word_at(shmem@, OFF_PAYLOAD as int)
            &&& r == spec_status_result(word_at(shmem@, OFF_PAYLOAD as int) as i32 as int)
            &&& (r matches Err(_) ==> final(xfer).rx@ == old(xfer).rx@)
            &&& (r matches Ok(_) ==> final(xfer).rx@ == shmem@.subrange(
                32,
                32 + spec_reply_len(shmem@, old(xfer).rx@.len()),
            ))
        },
{
    let echoed = shmem.msg_header();
    if (echoed >> 18u32) & 0x3ff != ((xfer.hdr.seq as u32) & 0x3ff) {
        return Err(ScmiError::CommsError);
    }
    let status_word = shmem.reply_status();
    xfer.hdr.status = status_word;
    match ScmiError::from_status(status_word as i32) {
        Err(e) => {
            return Err(e);
        },
        Ok(()) => {},
    }
    let len_field = shmem.length();
    let claimed: usize = if len_field >= 8 {
        (len_field - 8) as usize
    } else {
        0
    };
    let mut rx_len = claimed;
    let cap = xfer.rx.len();
    if rx_len > cap {
        rx_len = cap;
    }
    let avail = shmem.size() - 32;
    if rx_len > avail {
        rx_len = avail;
    }
    let data = shmem.read_payload(4, rx_len);
    xfer.rx = data;
    Ok(())
}

/// The transport data of a synchronous-privileged-call channel: the
/// platform function identifier to trigger, and the completion interrupt
/// if the board wired one.
///
/// The trigger itself is a privileged machine call that only the target
/// platform can make; the accessor that owns it serializes through
/// `tx_prepare` and `fetch_from_shmem` and contributes no layout logic of
/// its own.
pub struct Smc {
    func_id: u32,
    irq: Option<u32>,
}

impl Smc {
    /// The platform function identifier this channel triggers.
    pub closed spec fn spec_func_id(&self) -> u32 {
        self.func_id
    }

    /// The completion interrupt, where the board has one.
    pub closed spec fn spec_irq(&self) -> Option<u32> {
        self.irq
    }

    /// Binds a channel to its platform function identifier and optional
    /// completion interrupt.
    pub fn new(func_id: u32, irq: Option<u32>) -> (r: Smc)
        ensures
            r.spec_func_id() == func_id,
            r.spec_irq() == irq,
    {
        Smc { func_id, irq }
    }

    /// The platform function identifier this channel triggers.
    pub fn func_id(&self) -> (r: u32)
        ensures
            r == self.spec_func_id(),
    {
        self.func_id
    }

    /// A synchronous-call channel has its single channel always wired.
    pub fn chan_available(&self, idx: usize) -> (r: bool)
        ensures
            r,
    {
        let _ = idx;
        true
    }

    /// Completion must be polled for exactly when no interrupt was wired.
    pub fn no_completion_irq(&self) -> (r: bool)
        ensures
            r == (self.spec_irq() matches None::<u32>),
    {
        self.irq.is_none()
    }
}

} // verus!
