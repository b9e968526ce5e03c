use packet_forge::config::Config;
use packet_forge::transport::{
    bind_address, dvsp_request, http_request, select_transport, wrapped_report, HttpAction,
    HttpEvent, Transport, TransportError, UdpAction, UdpEvent, HTTP_REPLY_CAPACITY,
    UDP_REPLY_CAPACITY,
};

#[test]
fn udp_is_the_default_transport() {
    let mut cfg = Config::new();
    assert_eq!(select_transport(&cfg), Transport::Udp);
    cfg.http = true;
    assert_eq!(select_transport(&cfg), Transport::Http);
}

#[test]
fn bind_address_is_any_address_at_the_port() {
    let mut cfg = Config::new();
    assert_eq!(bind_address(&cfg), "0.0.0.0:57000");
    cfg.port = 0;
    assert_eq!(bind_address(&cfg), "0.0.0.0:0");
    cfg.port = 4294967295;
    assert_eq!(bind_address(&cfg), "0.0.0.0:4294967295");
}

#[test]
fn udp_exchange_step_by_step() {
    assert_eq!(UDP_REPLY_CAPACITY, 768);
    let step = dvsp_request(&UdpEvent::Start);
    assert_eq!(step.action, UdpAction::Bind);
    assert_eq!(step.report, "");
    let step = dvsp_request(&UdpEvent::Bound);
    assert_eq!(step.action, UdpAction::Send);
    assert_eq!(step.report, "");
    let step = dvsp_request(&UdpEvent::Sent);
    assert_eq!(step.action, UdpAction::Receive { capacity: 768 });
    assert_eq!(step.report, "");
    let step = dvsp_request(&UdpEvent::Received { size: 18 });
    assert_eq!(step.action, UdpAction::Decode { size: 18 });
    assert_eq!(step.report, "");
}

#[test]
fn udp_reply_is_not_longer_than_the_buffer() {
    assert_eq!(dvsp_request(&UdpEvent::Received { size: 0 }).action, UdpAction::Decode { size: 0 });
    assert_eq!(
        dvsp_request(&UdpEvent::Received { size: 768 }).action,
        UdpAction::Decode { size: 768 }
    );
    assert_eq!(
        dvsp_request(&UdpEvent::Received { size: 769 }).action,
        UdpAction::Decode { size: 768 }
    );
}

#[test]
fn udp_failures_are_reported() {
    let step = dvsp_request(&UdpEvent::BindFailed { reason: String::from("Address in use") });
    assert_eq!(step.action, UdpAction::Fail(TransportError::Bind));
    assert_eq!(step.report, "!! Error on bind: Address in use\n");
    let step = dvsp_request(&UdpEvent::SendFailed);
    assert_eq!(step.action, UdpAction::Fail(TransportError::Send));
    assert_eq!(step.report, "!! Failed\n");
    let step = dvsp_request(&UdpEvent::ReceiveFailed);
    assert_eq!(step.action, UdpAction::Fail(TransportError::Receive));
    assert_eq!(step.report, "!! Failed to recv response\n");
}

#[test]
fn http_exchange_step_by_step() {
    assert_eq!(HTTP_REPLY_CAPACITY, 4096);
    let step = http_request(HttpEvent::Start);
    assert_eq!(step.action, HttpAction::Connect);
    assert_eq!(step.report, "");
    let step = http_request(HttpEvent::Connected);
    assert_eq!(step.action, HttpAction::Exchange { capacity: 4096 });
    let step = http_request(HttpEvent::Read { size: 120 });
    assert_eq!(step.action, HttpAction::Unwrap { size: 120 });
    assert_eq!(step.report, "");
    let step = http_request(HttpEvent::Read { size: 5000 });
    assert_eq!(step.action, HttpAction::Unwrap { size: 4096 });
    let step = http_request(HttpEvent::Unwrapped);
    assert_eq!(step.action, HttpAction::Decode);
    assert_eq!(step.report, "");
}

#[test]
fn http_failures_are_reported() {
    let step = http_request(HttpEvent::ConnectFailed);
    assert_eq!(step.action, HttpAction::Fail(TransportError::Connect));
    assert_eq!(step.report, "!! Failed to connect\n");
    let step = http_request(HttpEvent::Read { size: 0 });
    assert_eq!(step.action, HttpAction::Fail(TransportError::EmptyRead));
    assert_eq!(step.report, "!! Failed to recv response\n");
    let step = http_request(HttpEvent::ReadFailed);
    assert_eq!(step.action, HttpAction::Fail(TransportError::EmptyRead));
    assert_eq!(step.report, "!! Failed to recv response\n");
    let step = http_request(HttpEvent::UnwrapFailed);
    assert_eq!(step.action, HttpAction::Fail(TransportError::Unwrap));
    assert_eq!(step.report, "!! Failed to unwrap response\n");
}

#[test]
fn wrapped_request_is_shown_in_prose_only() {
    let mut cfg = Config::new();
    let wrapped = b"POST /spring/ HTTP/1.1\r\nHost: example.org\r\n\r\n\x01\xff";
    assert_eq!(
        wrapped_report(&cfg, wrapped),
        "REQUEST:\nPOST /spring/ HTTP/1.1\r\nHost: example.org\r\n\r\n\u{1}\u{fffd}\n"
    );
    cfg.unit_test = true;
    assert_eq!(wrapped_report(&cfg, wrapped), "");
}
