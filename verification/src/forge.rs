//! Forging a request: which frame a message type calls for, filled from
//! the configuration, and what is reported of the packet that leaves.

use vstd::prelude::*;
use crate::config::{Config, ConfigView};
use crate::enums::MessageType;
use crate::frames::{RequestFrame, RequestFrameView};
use crate::text::{decimal, dump_text, push_decimal, push_packet_dump};

verus! {

/// A request as it is handed to the serialiser: the message type for the
/// header of the envelope, and the frame that becomes its content.
#[derive(Clone, Debug)]
pub struct Request {
    pub msg_type: MessageType,
    pub frame: RequestFrame,
}

/// What to do with a request once its envelope was asked for.
#[derive(Clone, Copy, Debug, PartialEq, Eq, Structural)]
pub enum ForgeAction {
    /// Send the packet.
    Send,
    /// Send nothing: the content is too long for an envelope.
    Abandon,
}

/// The outcome of wrapping a request: the text to report, and what to do
/// next.
#[derive(Debug)]
pub struct ForgeStep {
    pub report: String,
    pub action: ForgeAction,
}

/// The frame that a configuration calls for. A message type that no
/// request is made of has the empty frame.
pub open spec fn forged_frame(cfg: ConfigView) -> RequestFrameView {
    match cfg.msg_type {
        MessageType::GsnRegistration => RequestFrameView::Register {
            register: cfg.node_register,
            ntype: cfg.node_type,
            service: cfg.node_service,
            name: cfg.text_content,
        },
        MessageType::GsnResolution => RequestFrameView::Resolution { query: cfg.text_content },
        MessageType::GsnState => RequestFrameView::StateUpdate {
            state: cfg.node_state,
            name: cfg.text_content,
        },
        MessageType::GsnNodeInfo => RequestFrameView::NodeRequest { key: cfg.text_content },
        MessageType::GsnNodeStatus => RequestFrameView::NodeRequest { key: cfg.text_content },
        MessageType::GsnTypeRequest => RequestFrameView::TypeRequest { ntype: cfg.node_type },
        MessageType::UnitTest => RequestFrameView::UnitTest {
            action: cfg.test_action,
            extra: cfg.text_content,
        },
        MessageType::GtnRegistration => RequestFrameView::RegisterGtn {
            register: cfg.node_register,
            service: cfg.node_service,
            name: cfg.text_content,
        },
        MessageType::GtnGeosubNodes => RequestFrameView::Geosub { name: cfg.text_content },
        _ => RequestFrameView::Empty,
    }
}

/// What is reported of the wrapping of a forged request: in prose the
/// length of the content that the envelope records, and in either way
/// that the content was too long for one.
pub open spec fn forge_text(script: bool, msg_size: Option<u32>) -> Seq<char> {
    match msg_size {
        None => "!! Error on content size\n"@,
        Some(size) => if script {
            Seq::empty()
        } else {
            "<< out.packet.msg_size: "@ + decimal(size as nat) + "\n"@
        },
    }
}

/// What is reported, in prose only, of the packet that leaves: its length
/// and its bytes.
pub open spec fn outbound_text(script: bool, bytes: Seq<u8>) -> Seq<char> {
    if script {
        Seq::empty()
    } else {
        "<< out.bytes.len: "@ + decimal(bytes.len()) + "\n\n"@ + "<< out.bytes:\n"@ + dump_text(
            bytes,
        ) + "\n\n"@
    }
}

/// Forges the request that a configuration calls for. It never fails: a
/// message type that no request is made of, the undefined one and those of
/// answers among them, gets the empty frame, which is sent all the same.
pub fn forge_packet(cfg: &Config) -> (request: Request)
    ensures
        request.msg_type == cfg.msg_type,
        request.frame@ == forged_frame(cfg@),
        cfg.msg_type.is_response() || cfg.msg_type == MessageType::Undefined
            ==> request.frame@ is Empty,
{
    let frame = match cfg.msg_type {
        MessageType::GsnRegistration => RequestFrame::Register {
            register: cfg.node_register,
            ntype: cfg.node_type,
            service: cfg.node_service,
            name: cfg.text_content.clone(),
        },
        MessageType::GsnResolution => RequestFrame::Resolution { query: cfg.text_content.clone() },
        MessageType::GsnState => RequestFrame::StateUpdate {
            state: cfg.node_state,
            name: cfg.text_content.clone(),
        },
        MessageType::GsnNodeInfo => RequestFrame::NodeRequest { key: cfg.text_content.clone() },
        MessageType::GsnNodeStatus => RequestFrame::NodeRequest { key: cfg.text_content.clone() },
        MessageType::GsnTypeRequest => RequestFrame::TypeRequest { ntype: cfg.node_type },
        MessageType::UnitTest => RequestFrame::UnitTest {
            action: cfg.test_action,
            extra: cfg.text_content.clone(),
        },
        MessageType::GtnRegistration => RequestFrame::RegisterGtn {
            register: cfg.node_register,
            service: cfg.node_service,
            name: cfg.text_content.clone(),
        },
        MessageType::GtnGeosubNodes => RequestFrame::Geosub { name: cfg.text_content.clone() },
        _ => RequestFrame::Empty,
    };
    Request { msg_type: cfg.msg_type, frame }
}

/// Takes what the wrapping of a forged request gave: the length of the
/// content as the envelope records it, or nothing where the content is
/// too long for an envelope. Content that is too long ends the request,
/// and nothing else: nothing is sent.
pub fn forge_envelope(cfg: &Config, msg_size: Option<u32>) -> (step: ForgeStep)
    ensures
        step.action == (if msg_size is Some {
            ForgeAction::Send
        } else {
            ForgeAction::Abandon
        }),
        step.report@ == forge_text(cfg.unit_test, msg_size),
{
    match msg_size {
        None => ForgeStep {
            report: String::from_str("!! Error on content size\n"),
            action: ForgeAction::Abandon,
        },
        Some(size) => {
            let mut report = String::new();
            if !cfg.unit_test {
                report.append("<< out.packet.msg_size: ");
                push_decimal(&mut report, size as u64);
                report.append("\n");
                assert(report@ =~= forge_text(cfg.unit_test, msg_size));
            }
            ForgeStep { report, action: ForgeAction::Send }
        },
    }
}

/// Reports the packet that leaves. As tagged lines nothing is reported of
/// it.
pub fn outbound_report(cfg: &Config, bytes: &[u8]) -> (report: String)
    ensures
        report@ == outbound_text(cfg.unit_test, bytes@),
        cfg.unit_test ==> report@.len() == 0,
{
    let mut report = String::new();
    if !cfg.unit_test {
        report.append("<< out.bytes.len: ");
        push_decimal(&mut report, bytes.len() as u64);
        report.append("\n\n");
        report.append("<< out.bytes:\n");
        push_packet_dump(&mut report, bytes);
        report.append("\n\n");
        assert(report@ =~= outbound_text(cfg.unit_test, bytes@));
    }
    report
}

} // verus!
