use vane::payload::upgrade_bridge;
use vane::payload::BodySource;
use vane::Error;
use vane::{Container, PayloadState, Settlement, VaneBody};

// Carriers: incoming body, boxed stream, buffered body, upgrade handle,
// tunnel task, buffered bytes.
type Payload = PayloadState<&'static str, &'static str, &'static str, u32, &'static str, Vec<u8>>;
type Envelope = Container<&'static str, &'static str, &'static str, u32, &'static str, Vec<u8>>;

fn envelope(response_body: Payload, client_upgrade: Option<u32>) -> Envelope {
    Container { request_body: PayloadState::Http(VaneBody::Hyper("request")), response_body, client_upgrade }
}

#[test]
fn agreed_upgrade_is_bridged() {
    let mut c = envelope(PayloadState::Http(VaneBody::SwitchingProtocols(7)), Some(9));
    match c.settle_response() {
        Settlement::Bridge { client, upstream } => {
            assert_eq!(client, 9);
            assert_eq!(upstream, 7);
        }
        Settlement::Ready(_) => panic!("expected a bridge"),
    }
    assert!(matches!(c.response_body, PayloadState::Empty));
    assert_eq!(c.client_upgrade, None);
}

#[test]
fn unrequested_upgrade_answers_empty() {
    let mut c = envelope(PayloadState::Http(VaneBody::SwitchingProtocols(7)), None);
    assert!(matches!(c.settle_response(), Settlement::Ready(PayloadState::Empty)));
    assert!(matches!(c.response_body, PayloadState::Empty));
    assert_eq!(c.client_upgrade, None);
}

#[test]
fn buffered_payload_passes_through_and_keeps_client_handle() {
    let mut c = envelope(PayloadState::Buffered(vec![1, 2, 3]), Some(9));
    match c.settle_response() {
        Settlement::Ready(PayloadState::Buffered(bytes)) => assert_eq!(bytes, vec![1, 2, 3]),
        _ => panic!("expected the buffered payload"),
    }
    assert!(matches!(c.response_body, PayloadState::Empty));
    assert_eq!(c.client_upgrade, Some(9));
}

#[test]
fn http_stream_passes_through() {
    let mut c = envelope(PayloadState::Http(VaneBody::Hyper("incoming")), None);
    assert!(matches!(
        c.settle_response(),
        Settlement::Ready(PayloadState::Http(VaneBody::Hyper("incoming")))
    ));
    assert!(matches!(c.response_body, PayloadState::Empty));
}

#[test]
fn each_other_body_form_passes_through() {
    let mut c = envelope(PayloadState::Http(VaneBody::H3("h3")), Some(1));
    assert!(matches!(c.settle_response(), Settlement::Ready(PayloadState::Http(VaneBody::H3("h3")))));
    let mut c = envelope(PayloadState::Http(VaneBody::Generic("cgi")), Some(1));
    assert!(matches!(c.settle_response(), Settlement::Ready(PayloadState::Http(VaneBody::Generic("cgi")))));
    let mut c = envelope(PayloadState::Http(VaneBody::Buffered("full")), Some(1));
    assert!(matches!(c.settle_response(), Settlement::Ready(PayloadState::Http(VaneBody::Buffered("full")))));
    let mut c = envelope(PayloadState::Http(VaneBody::Empty), Some(1));
    assert!(matches!(c.settle_response(), Settlement::Ready(PayloadState::Http(VaneBody::Empty))));
    let mut c = envelope(PayloadState::Generic, Some(1));
    assert!(matches!(c.settle_response(), Settlement::Ready(PayloadState::Generic)));
    assert_eq!(c.client_upgrade, Some(1));
}

#[test]
fn existing_bridge_passes_through() {
    let mut c = envelope(
        PayloadState::Http(VaneBody::UpgradeBridge { tunnel_task: Some("tunnel") }),
        Some(4),
    );
    assert!(matches!(
        c.settle_response(),
        Settlement::Ready(PayloadState::Http(VaneBody::UpgradeBridge { tunnel_task: Some("tunnel") }))
    ));
    assert_eq!(c.client_upgrade, Some(4));
}

#[test]
fn empty_response_settles_empty() {
    let mut c = envelope(PayloadState::Empty, None);
    assert!(matches!(c.settle_response(), Settlement::Ready(PayloadState::Empty)));
    assert!(matches!(c.response_body, PayloadState::Empty));
    assert_eq!(c.client_upgrade, None);
}

#[test]
fn settling_twice_answers_empty_and_changes_nothing() {
    let mut c = envelope(PayloadState::Http(VaneBody::SwitchingProtocols(7)), Some(9));
    assert!(matches!(c.settle_response(), Settlement::Bridge { client: 9, upstream: 7 }));
    assert!(matches!(c.settle_response(), Settlement::Ready(PayloadState::Empty)));
    assert!(matches!(c.response_body, PayloadState::Empty));
    assert_eq!(c.client_upgrade, None);

    let mut c = envelope(PayloadState::Buffered(vec![5]), Some(2));
    assert!(matches!(c.settle_response(), Settlement::Ready(PayloadState::Buffered(_))));
    assert!(matches!(c.settle_response(), Settlement::Ready(PayloadState::Empty)));
    assert_eq!(c.client_upgrade, Some(2));
}

#[test]
fn client_handle_kept_or_bridged() {
    for body in [
        PayloadState::Http(VaneBody::SwitchingProtocols(1)),
        PayloadState::Generic,
        PayloadState::Empty,
    ] {
        let mut c = envelope(body, Some(42));
        let settled = c.settle_response();
        let bridged = matches!(settled, Settlement::Bridge { client: 42, .. });
        assert!(bridged || c.client_upgrade == Some(42));
    }
}

#[test]
fn upgrade_bridge_wraps_the_tunnel_task() {
    let payload: Payload = upgrade_bridge("tunnel");
    assert!(matches!(
        payload,
        PayloadState::Http(VaneBody::UpgradeBridge { tunnel_task: Some("tunnel") })
    ));
}

#[test]
fn settling_leaves_the_request_alone() {
    let mut c = envelope(PayloadState::Http(VaneBody::SwitchingProtocols(7)), Some(9));
    c.request_body = PayloadState::Buffered(vec![8, 8]);
    let _ = c.settle_response();
    assert!(matches!(&c.request_body, PayloadState::Buffered(b) if b == &vec![8, 8]));
}

#[test]
fn unbuffered_response_reads_as_none() {
    let c = envelope(PayloadState::Http(VaneBody::Hyper("incoming")), None);
    assert_eq!(c.buffered_response(), None);
    let c = envelope(PayloadState::Empty, None);
    assert_eq!(c.buffered_response(), None);
    let c = envelope(PayloadState::Generic, None);
    assert_eq!(c.buffered_response(), None);
}

#[test]
fn buffered_response_reads_its_bytes() {
    let c = envelope(PayloadState::Buffered(vec![1, 2]), None);
    assert_eq!(c.buffered_response(), Some(&vec![1, 2]));
}

#[test]
fn store_then_read_response_gives_the_bytes_and_keeps_the_rest() {
    let mut c = envelope(PayloadState::Http(VaneBody::Hyper("incoming")), Some(3));
    assert_eq!(c.buffered_response(), None);
    let taken = c.take_response_for_buffering();
    assert!(matches!(taken, Ok(Some(BodySource::Native("incoming")))));
    assert!(matches!(c.response_body, PayloadState::Empty));
    c.store_buffered_response(vec![4, 5, 6]);
    assert_eq!(c.buffered_response(), Some(&vec![4, 5, 6]));
    assert_eq!(c.client_upgrade, Some(3));
    assert!(matches!(c.request_body, PayloadState::Http(VaneBody::Hyper("request"))));
    assert!(matches!(
        c.settle_response(),
        Settlement::Ready(PayloadState::Buffered(ref b)) if b == &vec![4, 5, 6]
    ));
}

#[test]
fn store_then_read_request_gives_the_bytes_and_keeps_the_rest() {
    let mut c = envelope(PayloadState::Buffered(vec![9]), Some(3));
    assert_eq!(c.buffered_request(), None);
    let taken = c.take_request_for_buffering();
    assert!(matches!(taken, Ok(Some(BodySource::Native("request")))));
    assert!(matches!(c.request_body, PayloadState::Empty));
    c.store_buffered_request(vec![7, 7]);
    assert_eq!(c.buffered_request(), Some(&vec![7, 7]));
    assert_eq!(c.buffered_response(), Some(&vec![9]));
    assert_eq!(c.client_upgrade, Some(3));
}

#[test]
fn buffered_body_is_read_at_most_once() {
    let mut c = envelope(PayloadState::Http(VaneBody::H3("h3")), None);
    assert!(matches!(c.take_response_for_buffering(), Ok(Some(BodySource::Stream("h3")))));
    c.store_buffered_response(vec![1, 2]);
    // Later calls read nothing and change nothing.
    assert!(matches!(c.take_response_for_buffering(), Ok(None)));
    assert!(matches!(c.take_response_for_buffering(), Ok(None)));
    assert_eq!(c.buffered_response(), Some(&vec![1, 2]));

    let mut c = envelope(PayloadState::Empty, None);
    c.request_body = PayloadState::Buffered(vec![3]);
    assert!(matches!(c.take_request_for_buffering(), Ok(None)));
    assert_eq!(c.buffered_request(), Some(&vec![3]));
}

#[test]
fn buffering_hands_each_body_form_to_its_reader() {
    let mut c = envelope(PayloadState::Http(VaneBody::Generic("cgi")), None);
    assert!(matches!(c.take_response_for_buffering(), Ok(Some(BodySource::Stream("cgi")))));
    let mut c = envelope(PayloadState::Http(VaneBody::Buffered("full")), None);
    assert!(matches!(c.take_response_for_buffering(), Ok(Some(BodySource::Full("full")))));
    let mut c = envelope(PayloadState::Http(VaneBody::Empty), None);
    assert!(matches!(c.take_response_for_buffering(), Ok(Some(BodySource::Nothing))));
    assert!(matches!(c.response_body, PayloadState::Empty));
    let mut c = envelope(PayloadState::Empty, None);
    assert!(matches!(c.take_response_for_buffering(), Ok(Some(BodySource::Nothing))));
}

#[test]
fn handed_out_body_is_not_handed_out_again() {
    let mut c = envelope(PayloadState::Http(VaneBody::Hyper("incoming")), None);
    assert!(matches!(c.take_response_for_buffering(), Ok(Some(BodySource::Native("incoming")))));
    assert!(matches!(c.take_response_for_buffering(), Ok(Some(BodySource::Nothing))));
}

#[test]
fn upgrade_cannot_be_buffered_and_stays() {
    let mut c = envelope(PayloadState::Http(VaneBody::SwitchingProtocols(7)), Some(9));
    match c.take_response_for_buffering() {
        Err(e) => assert_eq!(e, Error::NotImplemented("an upgraded connection has no body to buffer".to_string())),
        Ok(_) => panic!("expected a refusal"),
    }
    assert!(matches!(c.response_body, PayloadState::Http(VaneBody::SwitchingProtocols(7))));
    assert!(matches!(c.settle_response(), Settlement::Bridge { client: 9, upstream: 7 }));

    let mut c = envelope(
        PayloadState::Http(VaneBody::UpgradeBridge { tunnel_task: Some("tunnel") }),
        None,
    );
    assert!(matches!(c.take_response_for_buffering(), Err(Error::NotImplemented(_))));
    assert!(matches!(c.response_body, PayloadState::Http(VaneBody::UpgradeBridge { .. })));
}

#[test]
fn generic_stream_cannot_be_buffered_and_stays() {
    let mut c = envelope(PayloadState::Empty, None);
    c.request_body = PayloadState::Generic;
    match c.take_request_for_buffering() {
        Err(e) => {
            assert_eq!(e.message(), "Not Implemented: buffering a generic L7 stream");
        }
        Ok(_) => panic!("expected a refusal"),
    }
    assert!(matches!(c.request_body, PayloadState::Generic));
}

#[test]
fn new_container_holds_both_payloads_and_no_upgrade() {
    let c: Envelope = Container::new(PayloadState::Buffered(vec![1]), PayloadState::Generic);
    assert_eq!(c.buffered_request(), Some(&vec![1]));
    assert!(matches!(c.response_body, PayloadState::Generic));
    assert_eq!(c.client_upgrade, None);
}

#[test]
fn storing_replaces_earlier_bytes() {
    let mut c = envelope(PayloadState::Buffered(vec![1]), None);
    c.store_buffered_response(vec![2]);
    assert_eq!(c.buffered_response(), Some(&vec![2]));
}
