use vstd::prelude::*;

use crate::err::ScmiError;
use crate::protocol::Protocal;
use crate::protocol::RxDecoder;
use crate::protocol::XferFuture;
use crate::protocol::XferStatus;
use crate::protocol::PROTOCOL_ATTRIBUTES;
use crate::shmem::spec_u32_bytes;
use crate::shmem::spec_u64_bytes;
use crate::shmem::u32_to_le_vec;
use crate::shmem::u64_to_le_vec;
use crate::transport::Transport;
use crate::ScmiData;

verus! {

/// Protocol identifier of the SCMI clock protocol.
pub const CLOCK_PROTOCOL_ID: u8 = 0x14;

/// Message identifier of the rate-set command.
pub const PROTOCOL_RATE_SET: u8 = 0x5;

/// Message identifier of the rate-get command.
pub const PROTOCOL_RATE_GET: u8 = 0x6;

/// Message identifier of the config-set command.
pub const PROTOCOL_CONFIG_SET: u8 = 0x7;

/// Config-set attribute bit that enables a clock.
pub const ATTRIBUTES_CLOCK_ENABLE: u32 = 1;

/// The clock protocol's attributes: how many clocks the platform exposes
/// and how many asynchronous rate changes it can have pending.
#[derive(Clone, Copy, Debug, PartialEq, Eq, Structural)]
pub struct ClockAttributes {
    pub num_clocks: u16,
    pub max_async_req: u8,
    pub reserved: u8,
}

/// The little-endian 64-bit value held by the first eight bytes of a
/// reply.
pub open spec fn le64(b: Seq<u8>) -> u64
    recommends
        b.len() >= 8,
{
    (b[0] as u64) | ((b[1] as u64) << 8u64) | ((b[2] as u64) << 16u64) | ((b[3] as u64)
        << 24u64) | ((b[4] as u64) << 32u64) | ((b[5] as u64) << 40u64) | ((b[6] as u64)
        << 48u64) | ((b[7] as u64) << 56u64)
}

/// Decoder of a clock rate reply: a little-endian 64-bit rate in hertz.
pub struct RateDecoder;

impl RxDecoder for RateDecoder {
    type Out = u64;

    open spec fn spec_decode(&self, rx: Seq<u8>) -> Result<u64, ScmiError> {
        if rx.len() < 8 {
            Err(ScmiError::ReplyTooShort)
        } else {
            Ok(le64(rx))
        }
    }

    fn decode(&self, rx: &Vec<u8>) -> (r: Result<u64, ScmiError>) {
        if rx.len() < 8 {
            Err(ScmiError::ReplyTooShort)
        } else {
            Ok(
                (rx[0] as u64) | ((rx[1] as u64) << 8u64) | ((rx[2] as u64) << 16u64) | ((rx[3]
                    as u64) << 24u64) | ((rx[4] as u64) << 32u64) | ((rx[5] as u64) << 40u64)
                    | ((rx[6] as u64) << 48u64) | ((rx[7] as u64) << 56u64),
            )
        }
    }
}

/// The attributes a reply's first four bytes describe: a little-endian
/// 16-bit clock count, the asynchronous-request limit, a reserved byte.
pub open spec fn spec_attributes_of(rx: Seq<u8>) -> ClockAttributes
    recommends
        rx.len() >= 4,
{
    ClockAttributes {
        num_clocks: (rx[0] as u16) | ((rx[1] as u16) << 8u16),
        max_async_req: rx[2],
        reserved: rx[3],
    }
}

/// Decoder of the clock attributes reply.
pub struct AttributesDecoder;

impl RxDecoder for AttributesDecoder {
    type Out = ClockAttributes;

    open spec fn spec_decode(&self, rx: Seq<u8>) -> Result<ClockAttributes, ScmiError> {
        if rx.len() < 4 {
            Err(ScmiError::ReplyTooShort)
        } else {
            Ok(spec_attributes_of(rx))
        }
    }

    fn decode(&self, rx: &Vec<u8>) -> (r: Result<ClockAttributes, ScmiError>) {
        if rx.len() < 4 {
            Err(ScmiError::ReplyTooShort)
        } else {
            Ok(
                ClockAttributes {
                    num_clocks: (rx[0] as u16) | ((rx[1] as u16) << 8u16),
                    max_async_req: rx[2],
                    reserved: rx[3],
                },
            )
        }
    }
}

/// Decoder of a reply that carries no data beyond its status word.
pub struct UnitDecoder;

impl RxDecoder for UnitDecoder {
    type Out = ();

    open spec fn spec_decode(&self, rx: Seq<u8>) -> Result<(), ScmiError> {
        Ok(())
    }

    fn decode(&self, rx: &Vec<u8>) -> (r: Result<(), ScmiError>) {
        Ok(())
    }
}

/// The clock-control front-end: builds the small request payloads of the
/// clock command set and decodes their fixed-size replies, driving every
/// exchange through its protocol session.
///
/// Each command comes in two layers: a public request builder whose
/// contract pins the exact outbound request — message identifier,
/// protocol identifier, payload bytes and reply buffer — and a thin
/// driver that polls the built exchange to completion.
pub struct Clock {
    protocol: Protocal,
    attributes: Option<ClockAttributes>,
}

impl Clock {
    /// The protocol identifier this front-end stamps its transfers with.
    pub closed spec fn spec_protocol_id(&self) -> u8 {
        self.protocol.id
    }

    /// The attributes learned from the platform, once `init` has run.
    pub closed spec fn spec_attributes(&self) -> Option<ClockAttributes> {
        self.attributes
    }

    /// A clock front-end over the given session, before the initial
    /// exchanges.
    pub fn new(protocol: Protocal) -> (r: Clock)
        ensures
            r.spec_protocol_id() == protocol.id,
            r.spec_attributes() matches None::<ClockAttributes>,
    {
        Clock { protocol, attributes: None }
    }

    /// The attributes learned from the platform, once `init` has run.
    pub fn attributes(&self) -> (r: Option<ClockAttributes>)
        ensures
            r == self.spec_attributes(),
    {
        self.attributes
    }

    /// Runs the opening exchanges of the protocol: requests its version,
    /// then its attributes, and records them.  Every token allocated on
    /// the way is released again, whichever exchange failed; with the
    /// token space exhausted the failure is reported before any transport
    /// work.
    pub fn init<T: Transport>(&mut self, data: &mut ScmiData<T>) -> (r: Result<(), ScmiError>)
        requires
            old(data).wf(),
        ensures
            final(data).wf(),
            final(self).spec_protocol_id() == old(self).spec_protocol_id(),
            forall|u: int|
                #![auto]
                final(data).tokens.token_allocated(u) <==> old(data).tokens.token_allocated(u),
            old(data).tokens.all_allocated() ==> r == Err::<(), ScmiError>(
                ScmiError::TokenExhausted,
            ),
            r matches Ok(_) ==> exists|rx: Seq<u8>|
                rx.len() >= 4 && final(self).spec_attributes() == Some(spec_attributes_of(rx)),
            r matches Err(_) ==> final(self).spec_attributes() == old(self).spec_attributes(),
    {
        let vfut = match self.protocol.version(data) {
            Ok(f) => f,
            Err(e) => {
                return Err(e);
            },
        };
        match vfut.wait_completion(data) {
            Ok(_version) => {},
            Err(e) => {
                return Err(e);
            },
        }
        self.fetch_attributes(data)
    }

    /// Builds the attributes request: the attributes command with an
    /// empty payload and a four-byte reply buffer, bound to the
    /// attributes decoder.  Fails, touching nothing, exactly when the
    /// token space is exhausted.
    pub fn attributes_request<T: Transport>(&self, data: &mut ScmiData<T>) -> (r: Result<
        XferFuture<AttributesDecoder>,
        ScmiError,
    >)
        requires
            old(data).wf(),
        ensures
            final(data).wf(),
            final(data).shmem == old(data).shmem,
            match r {
                Ok(fut) => {
                    &&& fut.xfer.hdr.id == PROTOCOL_ATTRIBUTES
                    &&& fut.xfer.hdr.protocol_id == self.spec_protocol_id()
                    &&& fut.xfer.hdr.status == 0
                    &&& fut.xfer.hdr.seq < 1024
                    &&& !old(data).tokens.token_allocated(fut.xfer.hdr.seq as int)
                    &&& forall|u: int|
                        #![auto]
                        final(data).tokens.token_allocated(u) <==> (old(
                            data,
                        ).tokens.token_allocated(u) || u == fut.xfer.hdr.seq as int)
                    &&& fut.xfer.status == XferStatus::Init
                    &&& fut.xfer.tx@ == Seq::<u8>::empty()
                    &&& fut.xfer.rx@ == Seq::new(4, |i: int| 0u8)
                },
                Err(e) => {
                    &&& e == ScmiError::TokenExhausted
                    &&& old(data).tokens.all_allocated()
                    &&& forall|u: int|
                        #![auto]
                        final(data).tokens.token_allocated(u) <==> old(
                            data,
                        ).tokens.token_allocated(u)
                },
            },
    {
        let xfer = match data.new_xfer(PROTOCOL_ATTRIBUTES, 0, 4) {
            Ok(x) => x,
            Err(e) => {
                return Err(e);
            },
        };
        proof {
            assert(xfer.tx@ =~= Seq::<u8>::empty());
            assert(xfer.rx@ =~= Seq::new(4, |i: int| 0u8));
        }
        Ok(self.protocol.do_xfer(xfer, AttributesDecoder))
    }

    /// Requests the protocol attributes and records them: on success the
    /// stored attributes are exactly what the attributes decoder made of
    /// the reply bytes.
    fn fetch_attributes<T: Transport>(&mut self, data: &mut ScmiData<T>) -> (r: Result<
        (),
        ScmiError,
    >)
        requires
            old(data).wf(),
        ensures
            final(data).wf(),
            final(self).spec_protocol_id() == old(self).spec_protocol_id(),
            forall|u: int|
                #![auto]
                final(data).tokens.token_allocated(u) <==> old(data).tokens.token_allocated(u),
            old(data).tokens.all_allocated() ==> r == Err::<(), ScmiError>(
                ScmiError::TokenExhausted,
            ),
            r matches Ok(_) ==> exists|rx: Seq<u8>|
                rx.len() >= 4 && final(self).spec_attributes() == Some(spec_attributes_of(rx)),
            r matches Err(_) ==> final(self).spec_attributes() == old(self).spec_attributes(),
    {
        let fut = match self.attributes_request(data) {
            Ok(f) => f,
            Err(e) => {
                return Err(e);
            },
        };
        let ghost dec = fut.decoder;
        match fut.wait_completion(data) {
            Ok(attrs) => {
                self.attributes = Some(attrs);
                proof {
                    let rx = choose|rx: Seq<u8>|
                        dec.spec_decode(rx) == Ok::<ClockAttributes, ScmiError>(attrs);
                    assert(rx.len() >= 4);
                    assert(self.spec_attributes() == Some(spec_attributes_of(rx)));
                }
                Ok(())
            },
            Err(e) => Err(e),
        }
    }

    /// Enables a clock: drives a config-set exchange with the enable bit,
    /// built by `config_set_request`.
    pub fn clk_enable<T: Transport>(&mut self, data: &mut ScmiData<T>, clk_id: u32) -> (r:
        Result<(), ScmiError>)
        requires
            old(data).wf(),
        ensures
            final(data).wf(),
            forall|u: int|
                #![auto]
                final(data).tokens.token_allocated(u) <==> old(data).tokens.token_allocated(u),
            old(data).tokens.all_allocated() ==> r == Err::<(), ScmiError>(
                ScmiError::TokenExhausted,
            ),
    {
        self.clock_config_set(data, clk_id, ATTRIBUTES_CLOCK_ENABLE)
    }

    /// Disables a clock: drives a config-set exchange with no attribute
    /// bits, built by `config_set_request`.
    pub fn clk_disable<T: Transport>(&mut self, data: &mut ScmiData<T>, clk_id: u32) -> (r:
        Result<(), ScmiError>)
        requires
            old(data).wf(),
        ensures
            final(data).wf(),
            forall|u: int|
                #![auto]
                final(data).tokens.token_allocated(u) <==> old(data).tokens.token_allocated(u),
            old(data).tokens.all_allocated() ==> r == Err::<(), ScmiError>(
                ScmiError::TokenExhausted,
            ),
    {
        self.clock_config_set(data, clk_id, 0)
    }

    /// Builds the rate-get request for clock `clk_id`: the rate-get
    /// command with the clock identifier as its little-endian payload and
    /// an eight-byte reply buffer, bound to the rate decoder.  Fails,
    /// touching nothing, exactly when the token space is exhausted.
    pub fn rate_get_request<T: Transport>(&self, data: &mut ScmiData<T>, clk_id: u32) -> (r:
        Result<XferFuture<RateDecoder>, ScmiError>)
        requires
            old(data).wf(),
        ensures
            final(data).wf(),
            final(data).shmem == old(data).shmem,
            match r {
                Ok(fut) => {
                    &&& fut.xfer.hdr.id == PROTOCOL_RATE_GET
                    &&& fut.xfer.hdr.protocol_id == self.spec_protocol_id()
                    &&& fut.xfer.hdr.status == 0
                    &&& fut.xfer.hdr.seq < 1024
                    &&& !old(data).tokens.token_allocated(fut.xfer.hdr.seq as int)
                    &&& forall|u: int|
                        #![auto]
                        final(data).tokens.token_allocated(u) <==> (old(
                            data,
                        ).tokens.token_allocated(u) || u == fut.xfer.hdr.seq as int)
                    &&& fut.xfer.status == XferStatus::Init
                    &&& fut.xfer.tx@ == spec_u32_bytes(clk_id)
                    &&& fut.xfer.rx@ == Seq::new(8, |i: int| 0u8)
                },
                Err(e) => {
                    &&& e == ScmiError::TokenExhausted
                    &&& old(data).tokens.all_allocated()
                    &&& forall|u: int|
                        #![auto]
                        final(data).tokens.token_allocated(u) <==> old(
                            data,
                        ).tokens.token_allocated(u)
                },
            },
    {
        let mut xfer = match data.new_xfer(PROTOCOL_RATE_GET, 4, 8) {
            Ok(x) => x,
            Err(e) => {
                return Err(e);
            },
        };
        proof {
            assert(xfer.rx@ =~= Seq::new(8, |i: int| 0u8));
        }
        xfer.set_tx(u32_to_le_vec(clk_id));
        Ok(self.protocol.do_xfer(xfer, RateDecoder))
    }

    /// Requests the rate of clock `clk_id` in hertz: drives the exchange
    /// that `rate_get_request` builds to completion.  A returned rate is
    /// the rate decoder's reading of an eight-byte reply; what reply the
    /// remote agent gives is the transport's affair.
    pub fn rate_get<T: Transport>(&mut self, data: &mut ScmiData<T>, clk_id: u32) -> (r: Result<
        u64,
        ScmiError,
    >)
        requires
            old(data).wf(),
        ensures
            final(data).wf(),
            forall|u: int|
                #![auto]
                final(data).tokens.token_allocated(u) <==> old(data).tokens.token_allocated(u),
            old(data).tokens.all_allocated() ==> r == Err::<u64, ScmiError>(
                ScmiError::TokenExhausted,
            ),
            r matches Ok(v) ==> exists|rx: Seq<u8>| rx.len() >= 8 && v == le64(rx),
    {
        let fut = match self.rate_get_request(data, clk_id) {
            Ok(f) => f,
            Err(e) => {
                return Err(e);
            },
        };
        fut.wait_completion(data)
    }

    /// Builds the rate-set request for clock `clk_id`: the rate-set
    /// command whose twelve-byte payload is the clock identifier followed
    /// by the little-endian rate, with no reply data expected.  Fails,
    /// touching nothing, exactly when the token space is exhausted.
    pub fn rate_set_request<T: Transport>(
        &self,
        data: &mut ScmiData<T>,
        clk_id: u32,
        rate: u64,
    ) -> (r: Result<XferFuture<UnitDecoder>, ScmiError>)
        requires
            old(data).wf(),
        ensures
            final(data).wf(),
            final(data).shmem == old(data).shmem,
            match r {
                Ok(fut) => {
                    &&& fut.xfer.hdr.id == PROTOCOL_RATE_SET
                    &&& fut.xfer.hdr.protocol_id == self.spec_protocol_id()
                    &&& fut.xfer.hdr.status == 0
                    &&& fut.xfer.hdr.seq < 1024
                    &&& !old(data).tokens.token_allocated(fut.xfer.hdr.seq as int)
                    &&& forall|u: int|
                        #![auto]
                        final(data).tokens.token_allocated(u) <==> (old(
                            data,
                        ).tokens.token_allocated(u) || u == fut.xfer.hdr.seq as int)
                    &&& fut.xfer.status == XferStatus::Init
                    &&& fut.xfer.tx@ == spec_u32_bytes(clk_id) + spec_u64_bytes(rate)
                    &&& fut.xfer.rx@ == Seq::<u8>::empty()
                },
                Err(e) => {
                    &&& e == ScmiError::TokenExhausted
                    &&& old(data).tokens.all_allocated()
                    &&& forall|u: int|
                        #![auto]
                        final(data).tokens.token_allocated(u) <==> old(
                            data,
                        ).tokens.token_allocated(u)
                },
            },
    {
        let mut xfer = match data.new_xfer(PROTOCOL_RATE_SET, 12, 0) {
            Ok(x) => x,
            Err(e) => {
                return Err(e);
            },
        };
        proof {
            assert(xfer.rx@ =~= Seq::<u8>::empty());
        }
        let mut payload = u32_to_le_vec(clk_id);
        let mut rate_bytes = u64_to_le_vec(rate);
        payload.append(&mut rate_bytes);
        xfer.set_tx(payload);
        Ok(self.protocol.do_xfer(xfer, UnitDecoder))
    }

    /// Asks the platform to set the rate of clock `clk_id`: drives the
    /// exchange that `rate_set_request` builds to completion.
    pub fn rate_set<T: Transport>(&mut self, data: &mut ScmiData<T>, clk_id: u32, rate: u64)
        -> (r: Result<(), ScmiError>)
        requires
            old(data).wf(),
        ensures
            final(data).wf(),
            forall|u: int|
                #![auto]
                final(data).tokens.token_allocated(u) <==> old(data).tokens.token_allocated(u),
            old(data).tokens.all_allocated() ==> r == Err::<(), ScmiError>(
                ScmiError::TokenExhausted,
            ),
    {
        let fut = match self.rate_set_request(data, clk_id, rate) {
            Ok(f) => f,
            Err(e) => {
                return Err(e);
            },
        };
        fut.wait_completion(data)
    }

    /// Builds a config-set request for clock `clk_id`: the config-set
    /// command whose eight-byte payload is the clock identifier followed
    /// by the attribute bits, with no reply data expected.  Fails,
    /// touching nothing, exactly when the token space is exhausted.
    pub fn config_set_request<T: Transport>(
        &self,
        data: &mut ScmiData<T>,
        clk_id: u32,
        config: u32,
    ) -> (r: Result<XferFuture<UnitDecoder>, ScmiError>)
        requires
            old(data).wf(),
        ensures
            final(data).wf(),
            final(data).shmem == old(data).shmem,
            match r {
                Ok(fut) => {
                    &&& fut.xfer.hdr.id == PROTOCOL_CONFIG_SET
                    &&& fut.xfer.hdr.protocol_id == self.spec_protocol_id()
                    &&& fut.xfer.hdr.status == 0
                    &&& fut.xfer.hdr.seq < 1024
                    &&& !old(data).tokens.token_allocated(fut.xfer.hdr.seq as int)
                    &&& forall|u: int|
                        #![auto]
                        final(data).tokens.token_allocated(u) <==> (old(
                            data,
                        ).tokens.token_allocated(u) || u == fut.xfer.hdr.seq as int)
                    &&& fut.xfer.status == XferStatus::Init
                    &&& fut.xfer.tx@ == spec_u32_bytes(clk_id) + spec_u32_bytes(config)
                    &&& fut.xfer.rx@ == Seq::<u8>::empty()
                },
                Err(e) => {
                    &&& e == ScmiError::TokenExhausted
                    &&& old(data).tokens.all_allocated()
                    &&& forall|u: int|
                        #![auto]
                        final(data).tokens.token_allocated(u) <==> old(
                            data,
                        ).tokens.token_allocated(u)
                },
            },
    {
        let mut xfer = match data.new_xfer(PROTOCOL_CONFIG_SET, 8, 0) {
            Ok(x) => x,
            Err(e) => {
                return Err(e);
            },
        };
        proof {
            assert(xfer.rx@ =~= Seq::<u8>::empty());
        }
        let mut payload = u32_to_le_vec(clk_id);
        let mut config_bytes = u32_to_le_vec(config);
        payload.append(&mut config_bytes);
        xfer.set_tx(payload);
        Ok(self.protocol.do_xfer(xfer, UnitDecoder))
    }

    /// Sends a config-set command for one clock: drives the exchange that
    /// `config_set_request` builds to completion.
    fn clock_config_set<T: Transport>(
        &mut self,
        data: &mut ScmiData<T>,
        clk_id: u32,
        config: u32,
    ) -> (r: Result<(), ScmiError>)
        requires
            old(data).wf(),
        ensures
            final(data).wf(),
            forall|u: int|
                #![auto]
                final(data).tokens.token_allocated(u) <==> old(data).tokens.token_allocated(u),
            old(data).tokens.all_allocated() ==> r == Err::<(), ScmiError>(
                ScmiError::TokenExhausted,
            ),
    {
        let fut = match self.config_set_request(data, clk_id, config) {
            Ok(f) => f,
            Err(e) => {
                return Err(e);
            },
        };
        fut.wait_completion(data)
    }
}

} // verus!
