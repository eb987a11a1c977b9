use scmi::fetch_from_shmem;
use scmi::PollError;
use scmi::Protocal;
use scmi::Scmi;
use scmi::ScmiError;
use scmi::Shmem;
use scmi::Transport;
use scmi::VersionDecoder;
use scmi::Xfer;
use scmi::XferStatus;

/// A transport over a remote agent scripted by the test: serializes the
/// request through the library's mailbox path, captures what went on the
/// wire, then plays the scripted reply into the mailbox.
struct MockTransport {
    sends: usize,
    fetches: usize,
    fail_send: Option<ScmiError>,
    reply_status: u32,
    reply_payload: Vec<u8>,
    reply_length: Option<u32>,
    captured_tx: Vec<u8>,
    captured_header: u32,
}

impl MockTransport {
    fn replying(status: u32, payload: &[u8]) -> MockTransport {
        MockTransport {
            sends: 0,
            fetches: 0,
            fail_send: None,
            reply_status: status,
            reply_payload: payload.to_vec(),
            reply_length: None,
            captured_tx: Vec::new(),
            captured_header: 0,
        }
    }

    fn failing(err: ScmiError) -> MockTransport {
        let mut t = MockTransport::replying(0, &[]);
        t.fail_send = Some(err);
        t
    }
}

impl Transport for MockTransport {
    fn max_msg(&self) -> usize {
        20
    }

    fn max_msg_size(&self) -> usize {
        128
    }

    fn sync_cmds_completed_on_ret(&self) -> bool {
        true
    }

    fn chan_available(&self, _idx: usize) -> bool {
        true
    }

    fn no_completion_irq(&self) -> bool {
        true
    }

    fn send_message(&mut self, shmem: &mut Shmem, xfer: &Xfer) -> Result<(), ScmiError> {
        self.sends += 1;
        if let Some(e) = self.fail_send {
            return Err(e);
        }
        shmem.tx_prepare(xfer)?;
        self.captured_header = shmem.msg_header();
        let wire_len = shmem.length() as usize;
        self.captured_tx = shmem.read_payload(0, wire_len - 4);
        // The remote agent answers synchronously: status word, then data.
        let mut payload = self.reply_status.to_le_bytes().to_vec();
        payload.extend_from_slice(&self.reply_payload);
        shmem.write_payload(&payload);
        let length = self
            .reply_length
            .unwrap_or(8 + self.reply_payload.len() as u32);
        shmem.set_length(length);
        Ok(())
    }

    fn fetch_response(&mut self, shmem: &mut Shmem, xfer: &mut Xfer) -> Result<(), ScmiError> {
        self.fetches += 1;
        fetch_from_shmem(shmem, xfer)
    }
}

fn client(transport: MockTransport) -> Scmi<MockTransport> {
    let shmem = Shmem::new(128, 0x4000_0000).expect("window size accepted");
    Scmi::new(transport, shmem)
}

#[test]
fn progression_reaches_a_result_after_two_pending_signals() {
    let mut scmi = client(MockTransport::replying(0, &[0x00, 0x00, 0x01, 0x00]));
    let session = Protocal::new(0x14);
    let mut fut = session.version(&mut scmi.data).expect("token available");
    assert_eq!(fut.xfer.status, XferStatus::Init);

    assert_eq!(
        fut.poll_completion(&mut scmi.data),
        Err(PollError::WouldBlock)
    );
    assert_eq!(fut.xfer.status, XferStatus::SendOk);

    assert_eq!(
        fut.poll_completion(&mut scmi.data),
        Err(PollError::WouldBlock)
    );
    assert_eq!(fut.xfer.status, XferStatus::RespOk);

    assert_eq!(fut.poll_completion(&mut scmi.data), Ok(0x0001_0000));
    assert_eq!(scmi.data.transport.sends, 1);
    assert_eq!(scmi.data.transport.fetches, 1);
}

#[test]
fn version_decodes_little_endian_payload() {
    let mut scmi = client(MockTransport::replying(0, &[0x00, 0x00, 0x01, 0x00]));
    let session = Protocal::new(0x10);
    let fut = session.version(&mut scmi.data).expect("token available");
    let version = fut.wait_completion(&mut scmi.data).expect("exchange works");
    assert_eq!(version, 0x0001_0000);
}

#[test]
fn abort_at_first_phase_stays_in_first_phase() {
    let mut scmi = client(MockTransport::failing(ScmiError::NotSupported));
    let session = Protocal::new(0x14);
    let mut fut = session.version(&mut scmi.data).expect("token available");

    assert_eq!(
        fut.poll_completion(&mut scmi.data),
        Err(PollError::Other(ScmiError::NotSupported))
    );
    assert_eq!(fut.xfer.status, XferStatus::Init);
    assert_eq!(scmi.data.transport.sends, 1);
    assert_eq!(scmi.data.transport.fetches, 0);

    // the engine did not retry on its own; a new poll starts the same phase
    assert_eq!(
        fut.poll_completion(&mut scmi.data),
        Err(PollError::Other(ScmiError::NotSupported))
    );
    assert_eq!(fut.xfer.status, XferStatus::Init);
    assert_eq!(scmi.data.transport.sends, 2);
}

#[test]
fn protocol_error_status_becomes_a_typed_error() {
    let mut scmi = client(MockTransport::replying((-3i32) as u32, &[]));
    let session = Protocal::new(0x14);
    let fut = session.version(&mut scmi.data).expect("token available");
    assert_eq!(
        fut.wait_completion(&mut scmi.data),
        Err(ScmiError::Denied)
    );
}

#[test]
fn short_reply_is_rejected_by_the_decoder() {
    let mut scmi = client(MockTransport::replying(0, &[0x01, 0x02]));
    let session = Protocal::new(0x14);
    let fut = session.version(&mut scmi.data).expect("token available");
    assert_eq!(
        fut.wait_completion(&mut scmi.data),
        Err(ScmiError::ReplyTooShort)
    );
}

#[test]
fn reply_length_is_clamped_to_the_buffer() {
    // the reply claims 100 bytes of data; the caller's buffer holds 8
    let mut shmem = Shmem::new(256, 0).expect("window size accepted");
    let mut payload = 0u32.to_le_bytes().to_vec();
    payload.extend_from_slice(&(0u8..100).collect::<Vec<u8>>());
    shmem.write_payload(&payload);
    shmem.set_length(8 + 100);

    let mut tokens = scmi::TokenTable::new();
    let mut xfer = Xfer::new(6, 0, 8, &mut tokens, 0).expect("token available");
    fetch_from_shmem(&shmem, &mut xfer).expect("success status");
    assert_eq!(xfer.rx, vec![0, 1, 2, 3, 4, 5, 6, 7]);
}

#[test]
fn reply_shorter_than_the_buffer_truncates_it() {
    let mut shmem = Shmem::new(256, 0).expect("window size accepted");
    let mut payload = 0u32.to_le_bytes().to_vec();
    payload.extend_from_slice(&[9, 8, 7]);
    shmem.write_payload(&payload);
    shmem.set_length(8 + 3);

    let mut tokens = scmi::TokenTable::new();
    let mut xfer = Xfer::new(6, 0, 16, &mut tokens, 0).expect("token available");
    fetch_from_shmem(&shmem, &mut xfer).expect("success status");
    assert_eq!(xfer.rx, vec![9, 8, 7]);
}

#[test]
fn stale_reply_with_wrong_token_is_rejected() {
    let mut shmem = Shmem::new(128, 0).expect("window size accepted");
    let mut tokens = scmi::TokenTable::new();
    let waiting = Xfer::new(6, 0, 4, &mut tokens, 0).expect("token available");
    let other = Xfer::new(6, 0, 4, &mut tokens, 1).expect("token available");
    assert_ne!(waiting.token(), other.token());

    // the mailbox holds the other transfer's exchange
    shmem.tx_prepare(&other).expect("channel free");
    shmem.write_payload(&0u32.to_le_bytes().to_vec());
    shmem.set_length(8);

    let mut waiting = waiting;
    assert_eq!(
        fetch_from_shmem(&shmem, &mut waiting),
        Err(ScmiError::CommsError)
    );
    assert_eq!(waiting.rx, vec![0, 0, 0, 0]);
}

#[test]
fn error_status_leaves_the_reply_buffer_alone() {
    let mut shmem = Shmem::new(128, 0).expect("window size accepted");
    let payload = (-6i32).to_le_bytes().to_vec();
    shmem.write_payload(&payload);
    shmem.set_length(8);

    let mut tokens = scmi::TokenTable::new();
    let mut xfer = Xfer::new(6, 0, 4, &mut tokens, 0).expect("token available");
    assert_eq!(fetch_from_shmem(&shmem, &mut xfer), Err(ScmiError::Busy));
    assert_eq!(xfer.rx, vec![0, 0, 0, 0]);
    assert_eq!(xfer.hdr.status, (-6i32) as u32);
}

#[test]
fn wait_completion_returns_the_token() {
    let mut scmi = client(MockTransport::replying(0, &[1, 0, 0, 0]));
    let session = Protocal::new(0x14);

    let first = session.version(&mut scmi.data).expect("token available");
    let first_token = first.xfer.token();
    first
        .wait_completion(&mut scmi.data)
        .expect("exchange works");

    // the token came back, and a freed token is preferred next
    let second = session.version(&mut scmi.data).expect("token available");
    let second_token = second.xfer.token();
    second
        .wait_completion(&mut scmi.data)
        .expect("exchange works");
    assert_eq!(first_token, second_token);

    // release moves the hint back, so the space never runs dry even after
    // many sequential exchanges
    for _ in 0..2048 {
        let fut = session.version(&mut scmi.data).expect("token available");
        fut.wait_completion(&mut scmi.data).expect("exchange works");
    }
}

#[test]
fn do_xfer_stamps_protocol_and_rewinds_state() {
    let mut scmi = client(MockTransport::replying(0, &[]));
    let session = Protocal::new(0x11);
    let mut xfer = scmi.data.new_xfer(0x6, 4, 8).expect("token available");
    xfer.status = XferStatus::RespOk;
    xfer.hdr.status = 77;
    let fut = session.do_xfer(xfer, VersionDecoder);
    assert_eq!(fut.xfer.hdr.protocol_id, 0x11);
    assert_eq!(fut.xfer.hdr.status, 0);
    assert_eq!(fut.xfer.status, XferStatus::Init);
    fut.xfer.release(&mut scmi.data.tokens);
}

#[test]
fn wire_header_carries_id_protocol_and_token() {
    let mut scmi = client(MockTransport::replying(0, &[0, 0, 0, 0]));
    let session = Protocal::new(0x14);
    let fut = session.version(&mut scmi.data).expect("token available");
    let expected_header = fut.xfer.hdr.pack();
    fut.wait_completion(&mut scmi.data).expect("exchange works");
    assert_eq!(scmi.data.transport.captured_header, expected_header);
}
