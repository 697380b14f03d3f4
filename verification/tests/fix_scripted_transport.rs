use orderflow_execution::fix_certification::{
    FixScriptedTransportError, FixScriptedTransportFailure,
};
use orderflow_execution::fix_live::{FixFrameTransport, FixTransportPoll};
use orderflow_execution::fix_scripted::{FixScriptedTransport, FixScriptedTransportConfig};

fn small_transport() -> FixScriptedTransport {
    FixScriptedTransport::new(FixScriptedTransportConfig::new(2, 16, 2, 16)).expect("transport")
}

#[test]
fn scripted_transport_refuses_zero_bounds() {
    for config in [
        FixScriptedTransportConfig::new(0, 1, 1, 1),
        FixScriptedTransportConfig::new(1, 0, 1, 1),
        FixScriptedTransportConfig::new(1, 1, 0, 1),
        FixScriptedTransportConfig::new(1, 1, 1, 0),
    ] {
        assert_eq!(
            FixScriptedTransport::new(config).err(),
            Some(FixScriptedTransportError::ZeroCapacity)
        );
    }
    let transport =
        FixScriptedTransport::new(FixScriptedTransportConfig::default()).expect("default");
    assert!(!transport.is_connected());
    assert_eq!(transport.inbound_frames(), 0);
    assert!(transport.outbound_frames().is_empty());
}

#[test]
fn scripted_transport_bounds_inbound_frames_and_bytes() {
    let mut transport = small_transport();
    assert_eq!(transport.enqueue_inbound(vec![1; 10]), Ok(()));
    assert_eq!(
        transport.enqueue_inbound(vec![2; 7]),
        Err(FixScriptedTransportError::InboundCapacity)
    );
    assert_eq!(transport.inbound_frames(), 1);
    assert_eq!(transport.enqueue_inbound(vec![3; 6]), Ok(()));
    assert_eq!(
        transport.enqueue_inbound(vec![]),
        Err(FixScriptedTransportError::InboundCapacity)
    );
    assert_eq!(transport.inbound_frames(), 2);
}

#[test]
fn scripted_transport_requires_connection() {
    let mut transport = small_transport();
    let mut buffer = [0u8; 8];
    assert_eq!(
        transport.send(b"35=0"),
        Err(FixScriptedTransportError::Disconnected)
    );
    assert_eq!(
        transport.poll_receive(&mut buffer),
        Err(FixScriptedTransportError::Disconnected)
    );
    assert!(transport.outbound_frames().is_empty());
}

#[test]
fn scripted_transport_archives_sent_frames_within_bounds() {
    let mut transport = small_transport();
    transport.connect().expect("connect");
    assert!(transport.is_connected());
    transport.send(b"35=A|").expect("logon");
    transport.send(b"35=D|").expect("order");
    assert_eq!(
        transport.send(b"35=0|"),
        Err(FixScriptedTransportError::OutboundCapacity)
    );
    assert_eq!(
        transport.outbound_frames(),
        &[b"35=A|".to_vec(), b"35=D|".to_vec()][..]
    );
    transport.clear_outbound_frames();
    assert!(transport.outbound_frames().is_empty());
    transport.send(b"35=0|").expect("heartbeat after clearing");
    assert_eq!(transport.outbound_frames().len(), 1);
}

#[test]
fn scripted_transport_delivers_frames_in_order() {
    let mut transport = small_transport();
    transport.enqueue_inbound(b"first".to_vec()).expect("first");
    transport.enqueue_inbound(b"second!".to_vec()).expect("second");
    transport.connect().expect("connect");

    let mut tiny = [9u8; 4];
    assert_eq!(
        transport.poll_receive(&mut tiny),
        Err(FixScriptedTransportError::ReceiveBufferTooSmall {
            required: 5,
            available: 4
        })
    );
    assert_eq!(tiny, [9u8; 4]);
    assert_eq!(transport.inbound_frames(), 2);

    let mut buffer = [0u8; 8];
    assert_eq!(
        transport.poll_receive(&mut buffer),
        Ok(FixTransportPoll::Frame { len: 5 })
    );
    assert_eq!(&buffer[..5], b"first");
    assert_eq!(&buffer[5..], &[0, 0, 0]);
    assert_eq!(
        transport.poll_receive(&mut buffer),
        Ok(FixTransportPoll::Frame { len: 7 })
    );
    assert_eq!(&buffer[..7], b"second!");
    assert_eq!(transport.poll_receive(&mut buffer), Ok(FixTransportPoll::Idle));
    assert_eq!(transport.inbound_frames(), 0);
    assert_eq!(transport.enqueue_inbound(vec![0; 16]), Ok(()));
}

#[test]
fn scripted_transport_injects_each_failure_once() {
    let mut transport = small_transport();
    transport.fail_next(FixScriptedTransportFailure::Connect);
    assert_eq!(
        transport.connect(),
        Err(FixScriptedTransportError::Injected(
            FixScriptedTransportFailure::Connect
        ))
    );
    assert!(!transport.is_connected());
    assert_eq!(transport.connect(), Ok(()));

    transport.fail_next(FixScriptedTransportFailure::Send);
    assert_eq!(transport.disconnect(), Ok(()));
    assert_eq!(transport.connect(), Ok(()));
    assert_eq!(
        transport.send(b"x"),
        Err(FixScriptedTransportError::Injected(
            FixScriptedTransportFailure::Send
        ))
    );
    assert!(transport.outbound_frames().is_empty());
    assert_eq!(transport.send(b"x"), Ok(()));

    transport.fail_next(FixScriptedTransportFailure::Receive);
    let mut buffer = [0u8; 4];
    assert_eq!(
        transport.poll_receive(&mut buffer),
        Err(FixScriptedTransportError::Injected(
            FixScriptedTransportFailure::Receive
        ))
    );
    assert_eq!(transport.poll_receive(&mut buffer), Ok(FixTransportPoll::Idle));

    transport.fail_next(FixScriptedTransportFailure::Disconnect);
    assert_eq!(
        transport.disconnect(),
        Err(FixScriptedTransportError::Injected(
            FixScriptedTransportFailure::Disconnect
        ))
    );
    assert!(transport.is_connected());
    assert_eq!(transport.disconnect(), Ok(()));
    assert!(!transport.is_connected());
}

#[test]
fn scripted_transport_enforces_bounds_without_partial_mutation() {
    let config = FixScriptedTransportConfig::new(1, 32, 1, 32);
    let mut transport = FixScriptedTransport::new(config).expect("transport");
    transport.enqueue_inbound(vec![1; 16]).expect("first");
    assert_eq!(
        transport.enqueue_inbound(vec![2; 8]),
        Err(FixScriptedTransportError::InboundCapacity)
    );
    assert_eq!(transport.inbound_frames(), 1);
    transport.connect().expect("connect");
    transport.send(&[3; 16]).expect("send");
    assert_eq!(
        transport.send(&[4; 8]),
        Err(FixScriptedTransportError::OutboundCapacity)
    );
    assert_eq!(transport.outbound_frames().len(), 1);
}
