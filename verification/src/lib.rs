use vstd::prelude::*;

mod barrier;
pub mod err;
pub mod protocol;
pub mod shmem;
pub mod token;
pub mod transport;

pub use err::spec_status_result;
pub use err::ScmiError;
pub use protocol::clock::Clock;
pub use protocol::clock::ClockAttributes;
pub use protocol::MsgType;
pub use protocol::PollError;
pub use protocol::Protocal;
pub use protocol::RxDecoder;
pub use protocol::ScmiMsgHdr;
pub use protocol::ScmiStdProtocol;
pub use protocol::ScmiSystemEvents;
pub use protocol::VersionDecoder;
pub use protocol::Xfer;
pub use protocol::XferFuture;
pub use protocol::XferStatus;
pub use shmem::Shmem;
pub use token::TokenTable;
pub use transport::fetch_from_shmem;
pub use transport::Smc;
pub use transport::Transport;

use crate::token::TOKEN_SPACE;
use crate::transport::hdr_wire_fields_kept;

verus! {

/// The shared state every protocol session of one client drives its
/// transfers through: the transport, the mailbox window, the token table
/// and the transfer-identifier counter.
///
/// One client owns one of these; at most one transfer is in flight on it
/// at a time because every operation takes it exclusively.  A deployment
/// that serves several concurrent callers wraps it in one mutual-exclusion
/// lock and lets every session serialize through that lock.
pub struct ScmiData<T: Transport> {
    pub transport: T,
    pub shmem: Shmem,
    pub tokens: TokenTable,
    pub next_transfer_id: i32,
}

impl<T: Transport> ScmiData<T> {
    /// The mailbox window and the token table keep their invariants.
    pub open spec fn wf(&self) -> bool {
        &&& self.shmem.wf()
        &&& self.tokens.wf()
    }

    /// Hands the request of a transfer to the transport.
    pub fn send_message(&mut self, xfer: &Xfer) -> (r: Result<(), ScmiError>)
        requires
            old(self).wf(),
        ensures
            final(self).wf(),
            final(self).tokens == old(self).tokens,
            final(self).next_transfer_id == old(self).next_transfer_id,
            final(self).shmem@.len() == old(self).shmem@.len(),
    {
        self.transport.send_message(&mut self.shmem, xfer)
    }

    /// Retrieves the reply of a transfer through the transport.
    pub fn fetch_response(&mut self, xfer: &mut Xfer) -> (r: Result<(), ScmiError>)
        requires
            old(self).wf(),
        ensures
            final(self).wf(),
            final(self).tokens == old(self).tokens,
            final(self).next_transfer_id == old(self).next_transfer_id,
            final(self).shmem@.len() == old(self).shmem@.len(),
            hdr_wire_fields_kept(final(xfer).hdr, old(xfer).hdr),
            final(xfer).status == old(xfer).status,
            final(xfer).tx@ == old(xfer).tx@,
            final(xfer).rx@.len() <= old(xfer).rx@.len(),
            r matches Ok(_) ==> spec_status_result(
                final(xfer).hdr.status as i32 as int,
            ) matches Ok(_),
    {
        self.transport.fetch_response(&mut self.shmem, xfer)
    }

    /// Builds a transfer with a fresh sequence token and the next debug
    /// identifier.  Fails with `TokenExhausted`, changing no token, exactly
    /// when every token is outstanding.
    pub fn new_xfer(&mut self, msg_id: u8, tx_size: usize, rx_size: usize) -> (r: Result<
        Xfer,
        ScmiError,
    >)
        requires
            old(self).wf(),
        ensures
            final(self).wf(),
            final(self).shmem == old(self).shmem,
            final(self).next_transfer_id as int == (if old(self).next_transfer_id == i32::MAX {
                i32::MIN as int
            } else {
                old(self).next_transfer_id + 1
            }),
            match r {
                Ok(x) => {
                    &&& x.transfer_id == old(self).next_transfer_id
                    &&& x.hdr.seq < TOKEN_SPACE
                    &&& !old(self).tokens.token_allocated(x.hdr.seq as int)
                    &&& forall|u: int|
                        #![auto]
                        final(self).tokens.token_allocated(u) <==> (old(
                            self,
                        ).tokens.token_allocated(u) || u == x.hdr.seq as int)
                    &&& x.hdr.id == msg_id
                    &&& x.hdr.protocol_id == 0
                    &&& x.hdr.type_ == MsgType::Command
                    &&& x.hdr.status == 0
                    &&& !x.hdr.poll_completion
                    &&& x.tx@ == Seq::new(tx_size as nat, |i: int| 0u8)
                    &&& x.rx@ == Seq::new(rx_size as nat, |i: int| 0u8)
                    &&& x.status == XferStatus::Init
                },
                Err(e) => {
                    &&& e == ScmiError::TokenExhausted
                    &&& old(self).tokens.all_allocated()
                    &&& forall|u: int|
                        #![auto]
                        final(self).tokens.token_allocated(u) <==> old(
                            self,
                        ).tokens.token_allocated(u)
                },
            },
    {
        let id = self.next_transfer_id;
        self.next_transfer_id = if id == i32::MAX {
            i32::MIN
        } else {
            id + 1
        };
        Xfer::new(msg_id, tx_size, rx_size, &mut self.tokens, id)
    }
}

/// The root client: owns the shared transport-and-mailbox state and hands
/// out protocol sessions bound to it.
pub struct Scmi<T: Transport> {
    pub data: ScmiData<T>,
}

impl<T: Transport> Scmi<T> {
    /// Builds a client over a transport and a mailbox window, putting the
    /// window into its FREE state.  The allocator state is owned here, not
    /// hidden in a global, so each client starts with the full token
    /// space.
    pub fn new(kind: T, shmem: Shmem) -> (r: Scmi<T>)
        requires
            shmem.wf(),
        ensures
            r.data.wf(),
            r.data.transport == kind,
            forall|t: int| !r.data.tokens.token_allocated(t),
            r.data.next_transfer_id == 0,
            r.data.shmem@.len() == shmem@.len(),
            shmem::word_at(r.data.shmem@, shmem::OFF_CHANNEL_STATUS as int) == 0u32,
            shmem::word_at(r.data.shmem@, shmem::OFF_FLAGS as int) == 0u32,
            shmem::word_at(r.data.shmem@, shmem::OFF_LENGTH as int) == 0u32,
            shmem::word_at(r.data.shmem@, shmem::OFF_MSG_HEADER as int) == 0u32,
            forall|i: int|
                0 <= i < shmem@.len() && !(4 <= i < 8) && !(16 <= i < 28)
                    ==> r.data.shmem@[i] == shmem@[i],
    {
        let mut shmem = shmem;
        shmem.init();
        Scmi {
            data: ScmiData {
                transport: kind,
                shmem,
                tokens: TokenTable::new(),
                next_transfer_id: 0,
            },
        }
    }

    /// Hands out the clock-control session bound to this client's
    /// transport and mailbox, after running the protocol's opening
    /// exchanges on it.  Every token allocated on the way is released
    /// again.  With the token space exhausted no exchange can start, and
    /// that is reported before any transport work.
    pub fn protocol_clk(&mut self) -> (r: Result<Clock, ScmiError>)
        requires
            old(self).data.wf(),
        ensures
            final(self).data.wf(),
            forall|u: int|
                #![auto]
                final(self).data.tokens.token_allocated(u) <==> old(
                    self,
                ).data.tokens.token_allocated(u),
            r matches Ok(c) ==> c.spec_protocol_id() == protocol::clock::CLOCK_PROTOCOL_ID && (
            c.spec_attributes() matches Some(_)),
            old(self).data.tokens.all_allocated() ==> r == Err::<Clock, ScmiError>(
                ScmiError::TokenExhausted,
            ),
    {
        let mut clk = Clock::new(Protocal::new(protocol::clock::CLOCK_PROTOCOL_ID));
        match clk.init(&mut self.data) {
            Ok(()) => Ok(clk),
            Err(e) => Err(e),
        }
    }
}

} // verus!
