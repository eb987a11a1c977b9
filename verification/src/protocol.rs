pub mod clock;

use vstd::prelude::*;
use vstd::std_specs::bits::u32_trailing_zeros;
use vstd::std_specs::bits::axiom_u32_trailing_zeros;

use crate::barrier::barrier_full;
use crate::err::spec_status_result;
use crate::err::ScmiError;
use crate::shmem::le32;
use crate::token::TokenTable;
use crate::transport::hdr_wire_fields_kept;
use crate::transport::Transport;
use crate::ScmiData;

verus! {

// Bit layout of the packed 32-bit wire header: message id in bits 0-7,
// message type in bits 8-9, protocol id in bits 10-17, sequence token in
// bits 18-27; bits 28-31 stay zero.
pub const MSG_ID_MASK: u32 = 0x0000_00ff;

pub const MSG_TYPE_MASK: u32 = 0x0000_0300;

pub const MSG_PROTOCOL_ID_MASK: u32 = 0x0003_fc00;

pub const MSG_TOKEN_ID_MASK: u32 = 0x0ffc_0000;

/// The mask with bits `low..=high` set, and zero when the range is empty or
/// runs past the word.
pub open spec fn spec_genmask(high: u32, low: u32) -> u32 {
    if high >= 32 || low >= 32 || high < low {
        0u32
    } else {
        (u32::MAX >> ((31 - high) as u32)) & (u32::MAX << low)
    }
}

/// Builds the mask with bits `low..=high` set.
pub fn genmask(high: u32, low: u32) -> (r: u32)
    ensures
        r == spec_genmask(high, low),
{
    if high >= 32 || low >= 32 || high < low {
        0
    } else {
        let all = u32::MAX;
        let upper = all >> (31 - high);
        let lower = all << low;
        upper & lower
    }
}

/// The largest value a field with the given mask can hold: the mask shifted
/// down to bit zero.
pub open spec fn spec_mask_to_max(mask: u32) -> u32 {
    if mask == 0 {
        0u32
    } else {
        mask >> u32_trailing_zeros(mask)
    }
}

/// Shifts a field mask down to bit zero, giving the largest field value.
pub fn mask_to_max(mask: u32) -> (r: u32)
    ensures
        r == spec_mask_to_max(mask),
{
    if mask == 0 {
        0
    } else {
        proof {
            axiom_u32_trailing_zeros(mask);
        }
        mask >> mask.trailing_zeros()
    }
}

/// `value` truncated to the width of `mask` and moved into its bit range.
pub open spec fn spec_field_prep(mask: u32, value: u32) -> u32 {
    ((value & (mask >> u32_trailing_zeros(mask))) << u32_trailing_zeros(mask)) & mask
}

/// Places `value` in the bit range that `mask` describes, truncating it to
/// the field width.
pub fn field_prep(mask: u32, value: u32) -> (r: u32)
    requires
        mask != 0,
    ensures
        r == spec_field_prep(mask, value),
{
    proof {
        axiom_u32_trailing_zeros(mask);
    }
    let shift = mask.trailing_zeros();
    ((value & (mask >> shift)) << shift) & mask
}

proof fn lemma_tz_id_mask()
    ensures
        u32_trailing_zeros(MSG_ID_MASK) == 0,
{
    axiom_u32_trailing_zeros(MSG_ID_MASK);
    assert((0x0000_00ffu32 >> 0u32) & 1u32 == 1u32) by (bit_vector);
}

proof fn lemma_tz_type_mask()
    ensures
        u32_trailing_zeros(MSG_TYPE_MASK) == 8,
{
    axiom_u32_trailing_zeros(MSG_TYPE_MASK);
    let tz = u32_trailing_zeros(MSG_TYPE_MASK);
    assert(forall|j: u32| j < 8 ==> #[trigger] ((0x0000_0300u32 >> j) & 1u32) == 0u32)
        by (bit_vector);
    assert((0x0000_0300u32 >> 8u32) & 1u32 == 1u32) by (bit_vector);
    if tz < 8 {
        assert((MSG_TYPE_MASK >> tz) & 1u32 == 1u32);
    }
    if tz > 8 {
        assert((MSG_TYPE_MASK >> 8u32) & 1u32 == 0u32);
    }
}

proof fn lemma_tz_protocol_mask()
    ensures
        u32_trailing_zeros(MSG_PROTOCOL_ID_MASK) == 10,
{
    axiom_u32_trailing_zeros(MSG_PROTOCOL_ID_MASK);
    let tz = u32_trailing_zeros(MSG_PROTOCOL_ID_MASK);
    assert(forall|j: u32| j < 10 ==> #[trigger] ((0x0003_fc00u32 >> j) & 1u32) == 0u32)
        by (bit_vector);
    assert((0x0003_fc00u32 >> 10u32) & 1u32 == 1u32) by (bit_vector);
    if tz < 10 {
        assert((MSG_PROTOCOL_ID_MASK >> tz) & 1u32 == 1u32);
    }
    if tz > 10 {
        assert((MSG_PROTOCOL_ID_MASK >> 10u32) & 1u32 == 0u32);
    }
}

proof fn lemma_tz_token_mask()
    ensures
        u32_trailing_zeros(MSG_TOKEN_ID_MASK) == 18,
{
    axiom_u32_trailing_zeros(MSG_TOKEN_ID_MASK);
    let tz = u32_trailing_zeros(MSG_TOKEN_ID_MASK);
    assert(forall|j: u32| j < 18 ==> #[trigger] ((0x0ffc_0000u32 >> j) & 1u32) == 0u32)
        by (bit_vector);
    assert((0x0ffc_0000u32 >> 18u32) & 1u32 == 1u32) by (bit_vector);
    if tz < 18 {
        assert((MSG_TOKEN_ID_MASK >> tz) & 1u32 == 1u32);
    }
    if tz > 18 {
        assert((MSG_TOKEN_ID_MASK >> 18u32) & 1u32 == 0u32);
    }
}

/// The four fixed field masks are the generic mask builder applied to
/// their documented bit ranges.
pub proof fn lemma_masks_from_genmask()
    ensures
        spec_genmask(7, 0) == MSG_ID_MASK,
        spec_genmask(9, 8) == MSG_TYPE_MASK,
        spec_genmask(17, 10) == MSG_PROTOCOL_ID_MASK,
        spec_genmask(27, 18) == MSG_TOKEN_ID_MASK,
{
    assert((0xffff_ffffu32 >> 24u32) & (0xffff_ffffu32 << 0u32) == 0x0000_00ffu32)
        by (bit_vector);
    assert((0xffff_ffffu32 >> 22u32) & (0xffff_ffffu32 << 8u32) == 0x0000_0300u32)
        by (bit_vector);
    assert((0xffff_ffffu32 >> 14u32) & (0xffff_ffffu32 << 10u32) == 0x0003_fc00u32)
        by (bit_vector);
    assert((0xffff_ffffu32 >> 4u32) & (0xffff_ffffu32 << 18u32) == 0x0ffc_0000u32)
        by (bit_vector);
}

/// The token space is one more than the largest value the token field of
/// the wire header can carry.
pub proof fn lemma_token_space_matches_the_token_field()
    ensures
        spec_mask_to_max(MSG_TOKEN_ID_MASK) + 1 == crate::token::TOKEN_SPACE,
{
    lemma_tz_token_mask();
    assert(0x0ffc_0000u32 >> 18u32 == 0x3ffu32) by (bit_vector);
}

/// The SCMI message type carried in bits 8-9 of the wire header.
#[derive(Clone, Copy, Debug, PartialEq, Eq, Structural)]
pub enum MsgType {
    Command,
    DelayedResponse,
    Notification,
}

/// The wire encoding of a message type: commands are 0, delayed responses 2,
/// notifications 3.
pub open spec fn spec_msg_type_value(t: MsgType) -> u32 {
    match t {
        MsgType::Command => 0u32,
        MsgType::DelayedResponse => 2u32,
        MsgType::Notification => 3u32,
    }
}

impl MsgType {
    /// The wire encoding of this message type.
    pub fn value(&self) -> (r: u32)
        ensures
            r == spec_msg_type_value(*self),
    {
        match self {
            MsgType::Command => 0,
            MsgType::DelayedResponse => 2,
            MsgType::Notification => 3,
        }
    }
}

impl Default for MsgType {
    /// A freshly built header describes a command.
    fn default() -> (r: Self)
        ensures
            r == MsgType::Command,
    {
        MsgType::Command
    }
}

/// Message (tx/rx) header.
///
/// - `id`: the identifier of the message being sent
/// - `protocol_id`: the identifier of the protocol that sends `id`
/// - `type_`: the SCMI type of this message
/// - `seq`: the sequence token of the message; the platform echoes the whole
///   header, token included, in its reply
/// - `status`: the status word of the reply once the transfer completes;
///   never part of the packed wire form
/// - `poll_completion`: whether completion is polled for rather than
///   signalled by interrupt
#[derive(Clone, Copy, Debug)]
pub struct ScmiMsgHdr {
    pub id: u8,
    pub protocol_id: u8,
    pub type_: MsgType,
    pub seq: u16,
    pub status: u32,
    pub poll_completion: bool,
}

/// The packed 32-bit wire form of a header: each field truncated to its
/// width and shifted to its bit range.
pub open spec fn spec_pack(h: ScmiMsgHdr) -> u32 {
    (h.id as u32) | ((spec_msg_type_value(h.type_) & 0x3) << 8u32) | ((h.protocol_id as u32)
        << 10u32) | (((h.seq as u32) & 0x3ff) << 18u32)
}

impl Default for ScmiMsgHdr {
    /// An all-zero command header.
    fn default() -> (r: Self)
        ensures
            r.id == 0,
            r.protocol_id == 0,
            r.type_ == MsgType::Command,
            r.seq == 0,
            r.status == 0,
            !r.poll_completion,
    {
        ScmiMsgHdr {
            id: 0,
            protocol_id: 0,
            type_: MsgType::Command,
            seq: 0,
            status: 0,
            poll_completion: false,
        }
    }
}

impl ScmiMsgHdr {
    /// Packs the four wire fields into their fixed bit ranges.
    pub fn pack(&self) -> (r: u32)
        ensures
            r == spec_pack(*self),
    {
        proof {
            lemma_tz_id_mask();
            lemma_tz_type_mask();
            lemma_tz_protocol_mask();
            lemma_tz_token_mask();
        }
        let tv = self.type_.value();
        let a = field_prep(MSG_ID_MASK, self.id as u32);
        let b = field_prep(MSG_TYPE_MASK, tv);
        let c = field_prep(MSG_TOKEN_ID_MASK, self.seq as u32);
        let d = field_prep(MSG_PROTOCOL_ID_MASK, self.protocol_id as u32);
        proof {
            let idv = self.id as u32;
            let pv = self.protocol_id as u32;
            let sv = self.seq as u32;
            assert(idv < 0x100 ==> ((idv & (0x0000_00ffu32 >> 0u32)) << 0u32) & 0x0000_00ffu32
                == idv) by (bit_vector);
            assert(((tv & (0x0000_0300u32 >> 8u32)) << 8u32) & 0x0000_0300u32 == (tv & 0x3)
                << 8u32) by (bit_vector);
            assert(pv < 0x100 ==> ((pv & (0x0003_fc00u32 >> 10u32)) << 10u32) & 0x0003_fc00u32
                == pv << 10u32) by (bit_vector);
            assert(((sv & (0x0ffc_0000u32 >> 18u32)) << 18u32) & 0x0ffc_0000u32 == (sv & 0x3ff)
                << 18u32) by (bit_vector);
            assert(forall|x: u32, z: u32, w: u32| #[trigger] ((x | z) | w) == (x | w) | z)
                by (bit_vector);
        }
        a | b | c | d
    }

    /// Maps the status word of the reply to the typed outcome of the
    /// exchange, reading the word as a signed code.
    pub fn to_result(&self) -> (r: Result<(), ScmiError>)
        ensures
            r == spec_status_result(self.status as i32 as int),
    {
        ScmiError::from_status(self.status as i32)
    }

    /// Clears the status word; every other field keeps its value.
    pub fn clear_status(&mut self)
        ensures
            final(self).status == 0,
            final(self).id == old(self).id,
            final(self).protocol_id == old(self).protocol_id,
            final(self).type_ == old(self).type_,
            final(self).seq == old(self).seq,
            final(self).poll_completion == old(self).poll_completion,
    {
        self.status = 0;
    }
}

/// Packing then extracting each field by its own mask returns the field,
/// truncated to the field width.  Message id, type and protocol id always
/// fit their fields; a sequence token keeps only its low ten bits, so tokens
/// below 1024 come back unchanged and larger values come back reduced.
pub proof fn lemma_header_round_trip(h: ScmiMsgHdr)
    ensures
        spec_pack(h) & MSG_ID_MASK == h.id as u32,
        (spec_pack(h) & MSG_TYPE_MASK) >> 8u32 == spec_msg_type_value(h.type_),
        (spec_pack(h) & MSG_PROTOCOL_ID_MASK) >> 10u32 == h.protocol_id as u32,
        (spec_pack(h) & MSG_TOKEN_ID_MASK) >> 18u32 == (h.seq as u32) & 0x3ff,
        h.seq < 1024 ==> (spec_pack(h) & MSG_TOKEN_ID_MASK) >> 18u32 == h.seq as u32,
        spec_pack(h) & 0xf000_0000u32 == 0,
{
    let idv = h.id as u32;
    let tv = spec_msg_type_value(h.type_);
    let pv = h.protocol_id as u32;
    let sv = h.seq as u32;
    let packed = idv | ((tv & 0x3) << 8u32) | (pv << 10u32) | ((sv & 0x3ff) << 18u32);
    assert(packed & 0x0000_00ffu32 == idv && (packed & 0x0000_0300u32) >> 8u32 == tv && (packed
        & 0x0003_fc00u32) >> 10u32 == pv && (packed & 0x0ffc_0000u32) >> 18u32 == sv & 0x3ff
        && packed & 0xf000_0000u32 == 0) by (bit_vector)
        requires
            packed == idv | ((tv & 0x3) << 8u32) | (pv << 10u32) | ((sv & 0x3ff) << 18u32),
            idv < 0x100,
            tv < 4,
            pv < 0x100,
    ;
    assert(sv < 1024 ==> sv & 0x3ff == sv) by (bit_vector);
}

/// The identifiers of the standard SCMI protocols.
#[derive(Clone, Copy, Debug, PartialEq, Eq, Structural)]
pub enum ScmiStdProtocol {
    Base,
    Power,
    System,
    Perf,
    Clock,
    Sensor,
    Reset,
    Voltage,
    Powercap,
}

impl ScmiStdProtocol {
    /// The protocol identifier assigned to this protocol by the SCMI
    /// specification.
    pub fn protocol_id(&self) -> (r: u8)
        ensures
            r == spec_std_protocol_id(*self),
    {
        match self {
            ScmiStdProtocol::Base => 0x10,
            ScmiStdProtocol::Power => 0x11,
            ScmiStdProtocol::System => 0x12,
            ScmiStdProtocol::Perf => 0x13,
            ScmiStdProtocol::Clock => 0x14,
            ScmiStdProtocol::Sensor => 0x15,
            ScmiStdProtocol::Reset => 0x16,
            ScmiStdProtocol::Voltage => 0x17,
            ScmiStdProtocol::Powercap => 0x18,
        }
    }
}

/// The protocol identifier of each standard SCMI protocol.
pub open spec fn spec_std_protocol_id(p: ScmiStdProtocol) -> u8 {
    match p {
        ScmiStdProtocol::Base => 0x10u8,
        ScmiStdProtocol::Power => 0x11u8,
        ScmiStdProtocol::System => 0x12u8,
        ScmiStdProtocol::Perf => 0x13u8,
        ScmiStdProtocol::Clock => 0x14u8,
        ScmiStdProtocol::Sensor => 0x15u8,
        ScmiStdProtocol::Reset => 0x16u8,
        ScmiStdProtocol::Voltage => 0x17u8,
        ScmiStdProtocol::Powercap => 0x18u8,
    }
}

/// The system power state events of the SCMI system power protocol, in
/// their wire order.
#[derive(Clone, Copy, Debug, PartialEq, Eq, Structural)]
pub enum ScmiSystemEvents {
    Shutdown,
    Coldreset,
    Warmreset,
    Powerup,
    Suspend,
    Max,
}

/// The three-phase completion state of a transfer: freshly stamped, request
/// handed to the transport, reply retrieved.
#[derive(Clone, Copy, Debug, PartialEq, Eq, Structural)]
pub enum XferStatus {
    Init,
    SendOk,
    RespOk,
}

/// How far through its phases a transfer has come; polling only ever moves
/// a transfer to a higher rank.
pub open spec fn spec_status_rank(s: XferStatus) -> int {
    match s {
        XferStatus::Init => 0,
        XferStatus::SendOk => 1,
        XferStatus::RespOk => 2,
    }
}

/// A zero-filled byte buffer of the given length.
pub(crate) fn zeroed_buffer(n: usize) -> (r: Vec<u8>)
    ensures
        r@ == Seq::new(n as nat, |i: int| 0u8),
{
    let mut v: Vec<u8> = Vec::new();
    let mut i: usize = 0;
    while i < n
        invariant
            i <= n,
            v@.len() == i,
            forall|j: int| 0 <= j < i ==> v@[j] == 0u8,
        decreases n - i,
    {
        v.push(0);
        i += 1;
    }
    proof {
        assert(v@ =~= Seq::new(n as nat, |i: int| 0u8));
    }
    v
}

/// One request/response exchange: its header, its outbound and inbound
/// byte buffers, and its completion state.
///
/// A transfer owns its sequence token from creation until it is given back
/// by `release`; it must never be reused for a second protocol call.
pub struct Xfer {
    pub transfer_id: i32,
    pub hdr: ScmiMsgHdr,
    pub tx: Vec<u8>,
    pub rx: Vec<u8>,
    pub pending: bool,
    pub busy: bool,
    pub status: XferStatus,
}

impl Xfer {
    /// Builds a transfer for message `msg_id` with a zeroed request buffer
    /// of `tx_size` bytes and a zeroed reply buffer of `rx_size` bytes,
    /// allocating it a fresh sequence token.
    ///
    /// Fails with `TokenExhausted`, leaving the table untouched, exactly
    /// when every token is outstanding.
    pub fn new(
        msg_id: u8,
        tx_size: usize,
        rx_size: usize,
        tokens: &mut TokenTable,
        transfer_id: i32,
    ) -> (r: Result<Xfer, ScmiError>)
        requires
            old(tokens).wf(),
        ensures
            final(tokens).wf(),
            match r {
                Ok(x) => {
                    &&& x.hdr.seq < 1024
                    &&& !old(tokens).token_allocated(x.hdr.seq as int)
                    &&& forall|u: int|
                        #![auto]
                        final(tokens).token_allocated(u) <==> (old(tokens).token_allocated(u)
                            || u == x.hdr.seq as int)
                    &&& x.hdr.id == msg_id
                    &&& x.hdr.protocol_id == 0
                    &&& x.hdr.type_ == MsgType::Command
                    &&& x.hdr.status == 0
                    &&& !x.hdr.poll_completion
                    &&& x.tx@ == Seq::new(tx_size as nat, |i: int| 0u8)
                    &&& x.rx@ == Seq::new(rx_size as nat, |i: int| 0u8)
                    &&& x.status == XferStatus::Init
                    &&& x.transfer_id == transfer_id
                    &&& !x.pending
                    &&& !x.busy
                },
                Err(e) => {
                    &&& e == ScmiError::TokenExhausted
                    &&& old(tokens).all_allocated()
                    &&& forall|u: int|
                        #![auto]
                        final(tokens).token_allocated(u) <==> old(tokens).token_allocated(u)
                },
            },
    {
        let token = match tokens.allocate() {
            Some(t) => t,
            None => {
                return Err(ScmiError::TokenExhausted);
            },
        };
        let mut hdr = ScmiMsgHdr::default();
        hdr.id = msg_id;
        hdr.seq = token;
        Ok(
            Xfer {
                transfer_id,
                hdr,
                tx: zeroed_buffer(tx_size),
                rx: zeroed_buffer(rx_size),
                pending: false,
                busy: false,
                status: XferStatus::Init,
            },
        )
    }

    /// The sequence token this transfer owns.
    pub fn token(&self) -> (r: u16)
        ensures
            r == self.hdr.seq,
    {
        self.hdr.seq
    }

    /// Fills the outbound buffer with a request payload.
    pub fn set_tx(&mut self, tx: Vec<u8>)
        ensures
            final(self).tx@ == tx@,
            final(self).hdr == old(self).hdr,
            final(self).rx@ == old(self).rx@,
            final(self).status == old(self).status,
            final(self).transfer_id == old(self).transfer_id,
            final(self).pending == old(self).pending,
            final(self).busy == old(self).busy,
    {
        self.tx = tx;
    }

    /// Gives the transfer's token back to the table, whichever phase the
    /// transfer reached: cleanup does not depend on success.
    pub fn release(self, tokens: &mut TokenTable)
        requires
            old(tokens).wf(),
        ensures
            final(tokens).wf(),
            self.hdr.seq < 1024 ==> forall|u: int|
                #![auto]
                final(tokens).token_allocated(u) <==> (old(tokens).token_allocated(u) && u
                    != self.hdr.seq as int),
            self.hdr.seq >= 1024 ==> forall|u: int|
                #![auto]
                final(tokens).token_allocated(u) <==> old(tokens).token_allocated(u),
    {
        tokens.release(self.hdr.seq);
    }
}

/// Message identifier of the version command every protocol offers.
pub const PROTOCOL_VERSION: u8 = 0;

/// Message identifier of the attributes command every protocol offers.
pub const PROTOCOL_ATTRIBUTES: u8 = 0x1;

/// Outcome of one poll step that did not produce a value: the transfer
/// merely advanced a phase and wants to be polled again, or it failed with
/// a typed error.
#[derive(Clone, Copy, Debug, PartialEq, Eq, Structural)]
pub enum PollError {
    WouldBlock,
    Other(ScmiError),
}

/// A stateless, side-effect-free decoder that turns the raw reply bytes of
/// a completed transfer into a typed result, rejecting a reply too short
/// for the type it builds.
pub trait RxDecoder: Sized {
    type Out;

    /// What the decoder makes of a reply.
    spec fn spec_decode(&self, rx: Seq<u8>) -> Result<Self::Out, ScmiError>;

    /// Decodes the reply bytes.
    fn decode(&self, rx: &Vec<u8>) -> (r: Result<Self::Out, ScmiError>)
        ensures
            r == self.spec_decode(rx@),
    ;
}

/// Decoder of the version reply: a little-endian 32-bit version number.
pub struct VersionDecoder;

impl RxDecoder for VersionDecoder {
    type Out = u32;

    open spec fn spec_decode(&self, rx: Seq<u8>) -> Result<u32, ScmiError> {
        if rx.len() < 4 {
            Err(ScmiError::ReplyTooShort)
        } else {
            Ok(le32(rx[0], rx[1], rx[2], rx[3]))
        }
    }

    fn decode(&self, rx: &Vec<u8>) -> (r: Result<u32, ScmiError>) {
        if rx.len() < 4 {
            Err(ScmiError::ReplyTooShort)
        } else {
            Ok(
                (rx[0] as u32) | ((rx[1] as u32) << 8u32) | ((rx[2] as u32) << 16u32) | ((rx[3]
                    as u32) << 24u32),
            )
        }
    }
}

/// A protocol session: binds one protocol identifier to the shared
/// transport-and-mailbox pair that every session of a client drives its
/// transfers through.
pub struct Protocal {
    pub id: u8,
}

impl Protocal {
    /// A session for the protocol with identifier `id`.
    pub fn new(id: u8) -> (r: Protocal)
        ensures
            r.id == id,
    {
        Protocal { id }
    }

    /// Stamps a transfer with this session's protocol identifier, clears
    /// its status, rewinds it to the first phase, and binds it to its
    /// decoder.  A full barrier orders the stamping before any transport
    /// work that follows.
    pub fn do_xfer<D: RxDecoder>(&self, xfer: Xfer, decoder: D) -> (r: XferFuture<D>)
        ensures
            r.xfer.hdr.protocol_id == self.id,
            r.xfer.hdr.status == 0,
            r.xfer.status == XferStatus::Init,
            r.xfer.hdr.id == xfer.hdr.id,
            r.xfer.hdr.seq == xfer.hdr.seq,
            r.xfer.hdr.type_ == xfer.hdr.type_,
            r.xfer.hdr.poll_completion == xfer.hdr.poll_completion,
            r.xfer.tx@ == xfer.tx@,
            r.xfer.rx@ == xfer.rx@,
            r.xfer.transfer_id == xfer.transfer_id,
            r.xfer.pending == xfer.pending,
            r.xfer.busy == xfer.busy,
            r.decoder == decoder,
    {
        let mut xfer = xfer;
        xfer.hdr.protocol_id = self.id;
        xfer.hdr.clear_status();
        xfer.status = XferStatus::Init;
        barrier_full();
        XferFuture { xfer, decoder }
    }

    /// Requests this protocol's version: a transfer for the version
    /// command with a four-byte reply buffer, bound to the version
    /// decoder.  Fails only when the token space is exhausted.
    pub fn version<T: Transport>(&self, data: &mut ScmiData<T>) -> (r: Result<
        XferFuture<VersionDecoder>,
        ScmiError,
    >)
        requires
            old(data).wf(),
        ensures
            final(data).wf(),
            final(data).shmem == old(data).shmem,
            match r {
                Ok(fut) => {
                    &&& fut.xfer.hdr.id == PROTOCOL_VERSION
                    &&& fut.xfer.hdr.protocol_id == self.id
                    &&& fut.xfer.hdr.seq < 1024
                    &&& !old(data).tokens.token_allocated(fut.xfer.hdr.seq as int)
                    &&& forall|u: int|
                        #![auto]
                        final(data).tokens.token_allocated(u) <==> (old(
                            data,
                        ).tokens.token_allocated(u) || u == fut.xfer.hdr.seq as int)
                    &&& fut.xfer.status == XferStatus::Init
                    &&& fut.xfer.tx@ == Seq::<u8>::empty()
                    &&& fut.xfer.rx@ == Seq::new(4, |i: int| 0u8)
                },
                Err(e) => {
                    &&& e == ScmiError::TokenExhausted
                    &&& old(data).tokens.all_allocated()
                    &&& forall|u: int|
                        #![auto]
                        final(data).tokens.token_allocated(u) <==> old(
                            data,
                        ).tokens.token_allocated(u)
                },
            },
    {
        let xfer = match data.new_xfer(PROTOCOL_VERSION, 0, 4) {
            Ok(x) => x,
            Err(e) => {
                return Err(e);
            },
        };
        proof {
            assert(xfer.tx@ =~= Seq::<u8>::empty());
            assert(xfer.rx@ =~= Seq::new(4, |i: int| 0u8));
        }
        Ok(self.do_xfer(xfer, VersionDecoder))
    }
}

/// A transfer bound to its decoder, being driven through the three phases
/// by a caller that polls it.
pub struct XferFuture<D: RxDecoder> {
    pub xfer: Xfer,
    pub decoder: D,
}

impl<D: RxDecoder> XferFuture<D> {
    /// Drives the transfer one phase forward and never blocks beyond the
    /// transport step itself.
    ///
    /// From the first phase it hands the request to the transport; from
    /// the second it retrieves the reply; each success reports
    /// `WouldBlock`, asking to be polled again.  In the terminal phase it
    /// decodes the reply and returns the typed result.  A failure at any
    /// phase is reported at once and leaves the phase where it was: the
    /// engine never retries on its own.
    pub fn poll_completion<T: Transport>(&mut self, data: &mut ScmiData<T>) -> (r: Result<
        D::Out,
        PollError,
    >)
        requires
            old(data).wf(),
        ensures
            final(data).wf(),
            final(data).tokens == old(data).tokens,
            final(data).next_transfer_id == old(data).next_transfer_id,
            final(self).decoder == old(self).decoder,
            hdr_wire_fields_kept(final(self).xfer.hdr, old(self).xfer.hdr),
            final(self).xfer.tx@ == old(self).xfer.tx@,
            spec_status_rank(final(self).xfer.status) >= spec_status_rank(
                old(self).xfer.status,
            ),
            match old(self).xfer.status {
                XferStatus::Init => {
                    &&& !(r matches Ok(_))
                    &&& (r matches Err(PollError::WouldBlock) <==> final(self).xfer.status
                        == XferStatus::SendOk)
                    &&& (r matches Err(PollError::Other(e)) ==> final(self).xfer.status
                        == XferStatus::Init)
                    &&& final(self).xfer.hdr == old(self).xfer.hdr
                    &&& final(self).xfer.rx@ == old(self).xfer.rx@
                },
                XferStatus::SendOk => {
                    &&& !(r matches Ok(_))
                    &&& (r matches Err(PollError::WouldBlock) <==> final(self).xfer.status
                        == XferStatus::RespOk)
                    &&& (r matches Err(PollError::WouldBlock) ==> spec_status_result(
                        final(self).xfer.hdr.status as i32 as int,
                    ) matches Ok(_))
                    &&& (r matches Err(PollError::Other(e)) ==> final(self).xfer.status
                        == XferStatus::SendOk)
                    &&& final(self).xfer.rx@.len() <= old(self).xfer.rx@.len()
                },
                XferStatus::RespOk => {
                    &&& final(self).xfer == old(self).xfer
                    &&& !(r matches Err(PollError::WouldBlock))
                    &&& (r matches Ok(v) ==> old(self).decoder.spec_decode(old(self).xfer.rx@)
                        == Ok::<D::Out, ScmiError>(v))
                    &&& (r matches Err(PollError::Other(e)) ==> old(self).decoder.spec_decode(
                        old(self).xfer.rx@,
                    ) == Err::<D::Out, ScmiError>(e))
                },
            },
    {
        match self.xfer.status {
            XferStatus::Init => {
                match data.send_message(&self.xfer) {
                    Ok(()) => {
                        self.xfer.status = XferStatus::SendOk;
                        Err(PollError::WouldBlock)
                    },
                    Err(e) => Err(PollError::Other(e)),
                }
            },
            XferStatus::SendOk => {
                match data.fetch_response(&mut self.xfer) {
                    Ok(()) => {
                        self.xfer.status = XferStatus::RespOk;
                        Err(PollError::WouldBlock)
                    },
                    Err(e) => Err(PollError::Other(e)),
                }
            },
            XferStatus::RespOk => {
                match self.decoder.decode(&self.xfer.rx) {
                    Ok(v) => Ok(v),
                    Err(e) => Err(PollError::Other(e)),
                }
            },
        }
    }

    /// Polls the transfer to a terminal outcome, then gives its token
    /// back whatever that outcome was: resource cleanup does not depend
    /// on success.  A future already in the terminal phase involves no
    /// transport work at all: its outcome is exactly what its decoder
    /// makes of the reply bytes it holds.
    #[verifier::loop_isolation(false)]
    pub fn wait_completion<T: Transport>(self, data: &mut ScmiData<T>) -> (r: Result<
        D::Out,
        ScmiError,
    >)
        requires
            old(data).wf(),
        ensures
            final(data).wf(),
            final(data).next_transfer_id == old(data).next_transfer_id,
            self.xfer.hdr.seq < 1024 ==> forall|u: int|
                #![auto]
                final(data).tokens.token_allocated(u) <==> (old(data).tokens.token_allocated(u)
                    && u != self.xfer.hdr.seq as int),
            self.xfer.hdr.seq >= 1024 ==> forall|u: int|
                #![auto]
                final(data).tokens.token_allocated(u) <==> old(data).tokens.token_allocated(u),
            r matches Ok(v) ==> exists|rx: Seq<u8>|
                self.decoder.spec_decode(rx) == Ok::<D::Out, ScmiError>(v),
            self.xfer.status == XferStatus::RespOk ==> r == (match self.decoder.spec_decode(
                self.xfer.rx@,
            ) {
                Ok(v) => Ok::<D::Out, ScmiError>(v),
                Err(e) => Err::<D::Out, ScmiError>(e),
            }),
    {
        let ghost decoder0 = self.decoder;
        let ghost seq0 = self.xfer.hdr.seq;
        let mut fut = self;
        loop
            invariant
                data.wf(),
                data.tokens == old(data).tokens,
                data.next_transfer_id == old(data).next_transfer_id,
                fut.decoder == decoder0,
                fut.xfer.hdr.seq == seq0,
                self.xfer.status == XferStatus::RespOk ==> fut.xfer == self.xfer,
            decreases 3 - spec_status_rank(fut.xfer.status),
        {
            match fut.poll_completion(data) {
                Err(PollError::WouldBlock) => {},
                Ok(v) => {
                    proof {
                        assert(decoder0.spec_decode(fut.xfer.rx@) == Ok::<D::Out, ScmiError>(
                            v,
                        ));
                    }
                    fut.xfer.release(&mut data.tokens);
                    return Ok(v);
                },
                Err(PollError::Other(e)) => {
                    fut.xfer.release(&mut data.tokens);
                    return Err(e);
                },
            }
        }
    }
}

} // verus!
