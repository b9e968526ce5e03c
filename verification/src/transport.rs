//! The two ways a packet travels, step by step: as one datagram over UDP,
//! or wrapped in an HTTP request over TCP.
//!
//! Sockets are not opened here. Each function takes what the last step on
//! the socket gave, and answers with the text to report and with the next
//! step to take. One exchange is one request and at most one reply: no
//! step is tried twice.

use vstd::prelude::*;
use crate::config::{Config, ConfigView};
use crate::text::{decimal, push_decimal, text_from_utf8_lossy, utf8_lossy};

verus! {

/// The size in bytes of the buffer that a datagram is received into.
pub const UDP_REPLY_CAPACITY: usize = 768;

/// The size in bytes of the buffer that an HTTP response is read into.
pub const HTTP_REPLY_CAPACITY: usize = 4096;

/// How a packet travels.
#[derive(Clone, Copy, Debug, PartialEq, Eq, Structural)]
pub enum Transport {
    Udp,
    Http,
}

/// Why an exchange ended without a reply.
#[derive(Clone, Copy, Debug, PartialEq, Eq, Structural)]
pub enum TransportError {
    /// No local endpoint could be bound.
    Bind,
    /// The datagram could not be sent.
    Send,
    /// No datagram could be received.
    Receive,
    /// No connection to the target could be made.
    Connect,
    /// Nothing could be read from the connection.
    EmptyRead,
    /// What was read is no HTTP response around a packet.
    Unwrap,
}

/// What the last step of an exchange over UDP gave.
#[derive(Clone, Debug)]
pub enum UdpEvent {
    /// Nothing was done yet.
    Start,
    Bound,
    /// Binding failed, for the reason that the system gave.
    BindFailed { reason: String },
    Sent,
    SendFailed,
    /// A datagram of `size` bytes came.
    Received { size: usize },
    ReceiveFailed,
}

/// What the last step of an exchange over UDP gave, as contracts see it.
pub enum UdpEventView {
    Start,
    Bound,
    BindFailed { reason: Seq<char> },
    Sent,
    SendFailed,
    Received { size: usize },
    ReceiveFailed,
}

impl View for UdpEvent {
    type V = UdpEventView;

    open spec fn view(&self) -> UdpEventView {
        match *self {
            UdpEvent::Start => UdpEventView::Start,
            UdpEvent::Bound => UdpEventView::Bound,
            UdpEvent::BindFailed { reason } => UdpEventView::BindFailed { reason: reason@ },
            UdpEvent::Sent => UdpEventView::Sent,
            UdpEvent::SendFailed => UdpEventView::SendFailed,
            UdpEvent::Received { size } => UdpEventView::Received { size },
            UdpEvent::ReceiveFailed => UdpEventView::ReceiveFailed,
        }
    }
}

/// The next step of an exchange over UDP.
#[derive(Clone, Copy, Debug, PartialEq, Eq, Structural)]
pub enum UdpAction {
    /// Bind a local endpoint.
    Bind,
    /// Send the packet to the target as one datagram.
    Send,
    /// Wait for one datagram, in a buffer of `capacity` bytes.
    Receive { capacity: usize },
    /// Decode the first `size` bytes of the buffer as the reply.
    Decode { size: usize },
    /// Give the exchange up.
    Fail(TransportError),
}

/// The outcome of one step over UDP: the text to report, and what to do next.
#[derive(Debug)]
pub struct UdpStep {
    pub report: String,
    pub action: UdpAction,
}

/// What the last step of an exchange over HTTP gave.
#[derive(Clone, Copy, Debug, PartialEq, Eq, Structural)]
pub enum HttpEvent {
    /// Nothing was done yet.
    Start,
    Connected,
    ConnectFailed,
    /// The request was written, and `size` bytes were read.
    Read { size: usize },
    ReadFailed,
    Unwrapped,
    UnwrapFailed,
}

/// The next step of an exchange over HTTP.
#[derive(Clone, Copy, Debug, PartialEq, Eq, Structural)]
pub enum HttpAction {
    /// Open a connection to the target.
    Connect,
    /// Write the wrapped request, then read once, in a buffer of
    /// `capacity` bytes.
    Exchange { capacity: usize },
    /// Take the packet out of the first `size` bytes of the buffer.
    Unwrap { size: usize },
    /// Decode the packet as the reply.
    Decode,
    /// Give the exchange up.
    Fail(TransportError),
}

/// The outcome of one step over HTTP: the text to report, and what to do next.
#[derive(Debug)]
pub struct HttpStep {
    pub report: String,
    pub action: HttpAction,
}

/// The way that a configuration sends packets.
pub open spec fn transport_of(cfg: ConfigView) -> Transport {
    if cfg.http {
        Transport::Http
    } else {
        Transport::Udp
    }
}

/// The local endpoint that a configuration binds: any address, at the
/// configured port, where port 0 leaves the choice to the system.
pub open spec fn bind_text(cfg: ConfigView) -> Seq<char> {
    "0.0.0.0:"@ + decimal(cfg.port as nat)
}

/// The step that follows an event over UDP.
pub open spec fn udp_action(event: UdpEventView) -> UdpAction {
    match event {
        UdpEventView::Start => UdpAction::Bind,
        UdpEventView::Bound => UdpAction::Send,
        UdpEventView::BindFailed { reason } => UdpAction::Fail(TransportError::Bind),
        UdpEventView::Sent => UdpAction::Receive { capacity: UDP_REPLY_CAPACITY },
        UdpEventView::SendFailed => UdpAction::Fail(TransportError::Send),
        UdpEventView::Received { size } => UdpAction::Decode {
            size: if size <= UDP_REPLY_CAPACITY {
                size
            } else {
                UDP_REPLY_CAPACITY
            },
        },
        UdpEventView::ReceiveFailed => UdpAction::Fail(TransportError::Receive),
    }
}

/// What is reported of an event over UDP: failures alone.
pub open spec fn udp_report(event: UdpEventView) -> Seq<char> {
    match event {
        UdpEventView::BindFailed { reason } => "!! Error on bind: "@ + reason + "\n"@,
        UdpEventView::SendFailed => "!! Failed\n"@,
        UdpEventView::ReceiveFailed => "!! Failed to recv response\n"@,
        _ => Seq::empty(),
    }
}

/// The step that follows an event over HTTP.
pub open spec fn http_action(event: HttpEvent) -> HttpAction {
    match event {
        HttpEvent::Start => HttpAction::Connect,
        HttpEvent::Connected => HttpAction::Exchange { capacity: HTTP_REPLY_CAPACITY },
        HttpEvent::ConnectFailed => HttpAction::Fail(TransportError::Connect),
        HttpEvent::Read { size } => if size == 0 {
            HttpAction::Fail(TransportError::EmptyRead)
        } else {
            HttpAction::Unwrap {
                size: if size <= HTTP_REPLY_CAPACITY {
                    size
                } else {
                    HTTP_REPLY_CAPACITY
                },
            }
        },
        HttpEvent::ReadFailed => HttpAction::Fail(TransportError::EmptyRead),
        HttpEvent::Unwrapped => HttpAction::Decode,
        HttpEvent::UnwrapFailed => HttpAction::Fail(TransportError::Unwrap),
    }
}

/// What is reported of an event over HTTP: failures alone.
pub open spec fn http_report(event: HttpEvent) -> Seq<char> {
    match http_action(event) {
        HttpAction::Fail(TransportError::Connect) => "!! Failed to connect\n"@,
        HttpAction::Fail(TransportError::EmptyRead) => "!! Failed to recv response\n"@,
        HttpAction::Fail(TransportError::Unwrap) => "!! Failed to unwrap response\n"@,
        _ => Seq::empty(),
    }
}

/// What is reported, in prose only, of a wrapped request before it is
/// written: its bytes read as text.
pub open spec fn wrapped_text(script: bool, wrapped: Seq<u8>) -> Seq<char> {
    if script {
        Seq::empty()
    } else {
        "REQUEST:\n"@ + utf8_lossy(wrapped) + "\n"@
    }
}

/// Chooses the way packets travel.
pub fn select_transport(cfg: &Config) -> (transport: Transport)
    ensures
        transport == transport_of(cfg@),
{
    if cfg.http {
        Transport::Http
    } else {
        Transport::Udp
    }
}

/// The local endpoint to bind for an exchange over UDP.
pub fn bind_address(cfg: &Config) -> (address: String)
    ensures
        address@ == bind_text(cfg@),
{
    let mut address = String::from_str("0.0.0.0:");
    push_decimal(&mut address, cfg.port as u64);
    address
}

/// One step of an exchange over UDP: bind, send the datagram, wait for one
/// datagram and have it decoded. A step that fails is reported and ends
/// the exchange.
pub fn dvsp_request(event: &UdpEvent) -> (step: UdpStep)
    ensures
        step.action == udp_action(event@),
        step.report@ == udp_report(event@),
{
    match event {
        UdpEvent::Start => UdpStep { report: String::new(), action: UdpAction::Bind },
        UdpEvent::Bound => UdpStep { report: String::new(), action: UdpAction::Send },
        UdpEvent::BindFailed { reason } => {
            let mut report = String::from_str("!! Error on bind: ");
            report.append(reason.as_str());
            report.append("\n");
            UdpStep { report, action: UdpAction::Fail(TransportError::Bind) }
        },
        UdpEvent::Sent => UdpStep {
            report: String::new(),
            action: UdpAction::Receive { capacity: UDP_REPLY_CAPACITY },
        },
        UdpEvent::SendFailed => UdpStep {
            report: String::from_str("!! Failed\n"),
            action: UdpAction::Fail(TransportError::Send),
        },
        UdpEvent::Received { size } => {
            let size: usize = if *size <= UDP_REPLY_CAPACITY {
                *size
            } else {
                UDP_REPLY_CAPACITY
            };
            UdpStep { report: String::new(), action: UdpAction::Decode { size } }
        },
        UdpEvent::ReceiveFailed => UdpStep {
            report: String::from_str("!! Failed to recv response\n"),
            action: UdpAction::Fail(TransportError::Receive),
        },
    }
}

/// One step of an exchange over HTTP: connect, write the wrapped request
/// and read once, unwrap what was read and have it decoded. A step that
/// fails, a read of no bytes among them, is reported and ends the exchange.
pub fn http_request(event: HttpEvent) -> (step: HttpStep)
    ensures
        step.action == http_action(event),
        step.report@ == http_report(event),
{
    match event {
        HttpEvent::Start => HttpStep { report: String::new(), action: HttpAction::Connect },
        HttpEvent::Connected => HttpStep {
            report: String::new(),
            action: HttpAction::Exchange { capacity: HTTP_REPLY_CAPACITY },
        },
        HttpEvent::ConnectFailed => HttpStep {
            report: String::from_str("!! Failed to connect\n"),
            action: HttpAction::Fail(TransportError::Connect),
        },
        HttpEvent::Read { size } => {
            if size == 0 {
                HttpStep {
                    report: String::from_str("!! Failed to recv response\n"),
                    action: HttpAction::Fail(TransportError::EmptyRead),
                }
            } else {
                let size: usize = if size <= HTTP_REPLY_CAPACITY {
                    size
                } else {
                    HTTP_REPLY_CAPACITY
                };
                HttpStep { report: String::new(), action: HttpAction::Unwrap { size } }
            }
        },
        HttpEvent::ReadFailed => HttpStep {
            report: String::from_str("!! Failed to recv response\n"),
            action: HttpAction::Fail(TransportError::EmptyRead),
        },
        HttpEvent::Unwrapped => HttpStep { report: String::new(), action: HttpAction::Decode },
        HttpEvent::UnwrapFailed => HttpStep {
            report: String::from_str("!! Failed to unwrap response\n"),
            action: HttpAction::Fail(TransportError::Unwrap),
        },
    }
}

/// Reports a wrapped request before it is written. As tagged lines nothing
/// is reported of it.
pub fn wrapped_report(cfg: &Config, wrapped: &[u8]) -> (report: String)
    ensures
        report@ == wrapped_text(cfg.unit_test, wrapped@),
{
    let mut report = String::new();
    if !cfg.unit_test {
        let text = text_from_utf8_lossy(wrapped);
        report.append("REQUEST:\n");
        report.append(text.as_str());
        report.append("\n");
        assert(report@ =~= wrapped_text(cfg.unit_test, wrapped@));
    }
    report
}

} // verus!
