use std::collections::VecDeque;

use scmi::fetch_from_shmem;
use scmi::Scmi;
use scmi::ScmiError;
use scmi::Shmem;
use scmi::Transport;
use scmi::Xfer;

/// A transport whose remote agent answers each request with the next
/// scripted reply, recording every outbound payload.
struct ScriptedTransport {
    replies: VecDeque<(u32, Vec<u8>)>,
    captured_tx: Vec<Vec<u8>>,
}

impl ScriptedTransport {
    fn new(replies: &[(u32, &[u8])]) -> ScriptedTransport {
        ScriptedTransport {
            replies: replies
                .iter()
                .map(|(status, payload)| (*status, payload.to_vec()))
                .collect(),
            captured_tx: Vec::new(),
        }
    }
}

impl Transport for ScriptedTransport {
    fn max_msg(&self) -> usize {
        20
    }

    fn max_msg_size(&self) -> usize {
        128
    }

    fn sync_cmds_completed_on_ret(&self) -> bool {
        true
    }

    fn chan_available(&self, _idx: usize) -> bool {
        true
    }

    fn no_completion_irq(&self) -> bool {
        true
    }

    fn send_message(&mut self, shmem: &mut Shmem, xfer: &Xfer) -> Result<(), ScmiError> {
        shmem.tx_prepare(xfer)?;
        let wire_len = shmem.length() as usize;
        self.captured_tx.push(shmem.read_payload(0, wire_len - 4));
        let (status, data) = self.replies.pop_front().expect("a scripted reply is left");
        let mut payload = status.to_le_bytes().to_vec();
        payload.extend_from_slice(&data);
        shmem.write_payload(&payload);
        shmem.set_length(8 + data.len() as u32);
        Ok(())
    }

    fn fetch_response(&mut self, shmem: &mut Shmem, xfer: &mut Xfer) -> Result<(), ScmiError> {
        fetch_from_shmem(shmem, xfer)
    }
}

fn client(replies: &[(u32, &[u8])]) -> Scmi<ScriptedTransport> {
    let shmem = Shmem::new(128, 0).expect("window size accepted");
    Scmi::new(ScriptedTransport::new(replies), shmem)
}

#[test]
fn rate_get_for_clock_three() {
    let rate_bytes = 1_000_000u64.to_le_bytes();
    let mut scmi = client(&[
        (0, &[0x00, 0x00, 0x02, 0x00]),  // version 2.0
        (0, &[0x04, 0x00, 0x01, 0x00]),  // attributes: 4 clocks, 1 async
        (0, &rate_bytes),
    ]);
    let mut clk = scmi.protocol_clk().expect("init exchanges succeed");

    let rate = clk.rate_get(&mut scmi.data, 3).expect("rate exchange works");
    assert_eq!(rate, 1_000_000);

    // the outbound request payload was the clock id in little-endian bytes
    assert_eq!(scmi.data.transport.captured_tx[2], 3u32.to_le_bytes().to_vec());
}

#[test]
fn init_learns_the_attributes() {
    let mut scmi = client(&[
        (0, &[0x00, 0x00, 0x02, 0x00]),
        (0, &[0x04, 0x00, 0x01, 0x00]),
    ]);
    let clk = scmi.protocol_clk().expect("init exchanges succeed");
    let attrs = clk.attributes().expect("attributes recorded");
    assert_eq!(attrs.num_clocks, 4);
    assert_eq!(attrs.max_async_req, 1);
    // init requested version then attributes, both with empty payloads
    assert_eq!(scmi.data.transport.captured_tx.len(), 2);
    assert!(scmi.data.transport.captured_tx[0].is_empty());
    assert!(scmi.data.transport.captured_tx[1].is_empty());
}

#[test]
fn init_failure_is_propagated() {
    let mut scmi = client(&[((-1i32) as u32, &[])]);
    assert_eq!(
        scmi.protocol_clk().map(|_| ()),
        Err(ScmiError::NotSupported)
    );
}

#[test]
fn enable_and_disable_build_config_payloads() {
    let mut scmi = client(&[
        (0, &[0x00, 0x00, 0x02, 0x00]),
        (0, &[0x04, 0x00, 0x01, 0x00]),
        (0, &[]),
        (0, &[]),
    ]);
    let mut clk = scmi.protocol_clk().expect("init exchanges succeed");

    clk.clk_enable(&mut scmi.data, 7).expect("exchange works");
    let mut expected = 7u32.to_le_bytes().to_vec();
    expected.extend_from_slice(&1u32.to_le_bytes());
    assert_eq!(scmi.data.transport.captured_tx[2], expected);

    clk.clk_disable(&mut scmi.data, 7).expect("exchange works");
    let mut expected = 7u32.to_le_bytes().to_vec();
    expected.extend_from_slice(&0u32.to_le_bytes());
    assert_eq!(scmi.data.transport.captured_tx[3], expected);
}

#[test]
fn rate_set_builds_its_payload() {
    let mut scmi = client(&[
        (0, &[0x00, 0x00, 0x02, 0x00]),
        (0, &[0x04, 0x00, 0x01, 0x00]),
        (0, &[]),
    ]);
    let mut clk = scmi.protocol_clk().expect("init exchanges succeed");

    clk.rate_set(&mut scmi.data, 3, 24_000_000)
        .expect("exchange works");
    let mut expected = 3u32.to_le_bytes().to_vec();
    expected.extend_from_slice(&24_000_000u64.to_le_bytes());
    assert_eq!(scmi.data.transport.captured_tx[2], expected);
}

#[test]
fn request_builders_pin_the_outbound_request() {
    let mut scmi = client(&[
        (0, &[0x00, 0x00, 0x02, 0x00]),
        (0, &[0x04, 0x00, 0x01, 0x00]),
    ]);
    let clk = scmi.protocol_clk().expect("init exchanges succeed");

    let fut = clk
        .rate_get_request(&mut scmi.data, 3)
        .expect("token available");
    assert_eq!(fut.xfer.hdr.id, 0x6);
    assert_eq!(fut.xfer.hdr.protocol_id, 0x14);
    assert_eq!(fut.xfer.tx, vec![3, 0, 0, 0]);
    assert_eq!(fut.xfer.rx, vec![0; 8]);
    fut.xfer.release(&mut scmi.data.tokens);

    let fut = clk
        .config_set_request(&mut scmi.data, 7, 1)
        .expect("token available");
    assert_eq!(fut.xfer.hdr.id, 0x7);
    assert_eq!(fut.xfer.tx, vec![7, 0, 0, 0, 1, 0, 0, 0]);
    assert!(fut.xfer.rx.is_empty());
    fut.xfer.release(&mut scmi.data.tokens);

    let fut = clk
        .rate_set_request(&mut scmi.data, 3, 24_000_000)
        .expect("token available");
    assert_eq!(fut.xfer.hdr.id, 0x5);
    let mut expected = 3u32.to_le_bytes().to_vec();
    expected.extend_from_slice(&24_000_000u64.to_le_bytes());
    assert_eq!(fut.xfer.tx, expected);
    fut.xfer.release(&mut scmi.data.tokens);

    let fut = clk
        .attributes_request(&mut scmi.data)
        .expect("token available");
    assert_eq!(fut.xfer.hdr.id, 0x1);
    assert!(fut.xfer.tx.is_empty());
    assert_eq!(fut.xfer.rx, vec![0, 0, 0, 0]);
    fut.xfer.release(&mut scmi.data.tokens);
}

#[test]
fn exhausted_tokens_fail_before_any_transport_work() {
    let mut scmi = client(&[
        (0, &[0x00, 0x00, 0x02, 0x00]),
        (0, &[0x04, 0x00, 0x01, 0x00]),
    ]);
    let mut clk = scmi.protocol_clk().expect("init exchanges succeed");
    while scmi.data.tokens.allocate().is_some() {}

    // no scripted reply is left, yet nothing reaches the transport
    assert_eq!(
        clk.rate_get(&mut scmi.data, 3),
        Err(ScmiError::TokenExhausted)
    );
    assert_eq!(
        clk.clk_enable(&mut scmi.data, 1),
        Err(ScmiError::TokenExhausted)
    );
    assert_eq!(
        clk.rate_set(&mut scmi.data, 1, 5),
        Err(ScmiError::TokenExhausted)
    );
}

#[test]
fn remote_error_during_rate_get_is_typed() {
    let mut scmi = client(&[
        (0, &[0x00, 0x00, 0x02, 0x00]),
        (0, &[0x04, 0x00, 0x01, 0x00]),
        ((-4i32) as u32, &[]),
    ]);
    let mut clk = scmi.protocol_clk().expect("init exchanges succeed");
    assert_eq!(
        clk.rate_get(&mut scmi.data, 9),
        Err(ScmiError::NotFound)
    );
}
