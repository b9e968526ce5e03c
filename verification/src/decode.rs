//! What to do with the bytes of a reply: check their length, route them by
//! the message type of their envelope to the decoder of one frame, and
//! report what the frame holds.
//!
//! The envelope and the frames are read by the protocol's serialiser. Each
//! function here takes what the serialiser found at one stage, and answers
//! with the text to report and with what to ask of it next.

use vstd::prelude::*;
use crate::config::{Config, ConfigView};
use crate::enums::{MessageType, ResultCode, ResultCodeView};
use crate::frames::{
    FrameKind,
    FrameNetwork,
    FrameNetworkView,
    FrameNodeInfo,
    FrameNodeInfoView,
    FrameNodeStatus,
    FrameNodeStatusView,
    FrameResponse,
    FrameResponseView,
    PacketHeader,
    ResponseFrame,
    ResponseFrameView,
};
use crate::protocol::{NodeTypes, Protocol};
use crate::text::{
    decimal,
    dump_text,
    ipv4_text,
    push_decimal,
    push_ipv4,
    push_packet_dump,
    text_from_utf8_lossy,
    utf8_lossy,
};

verus! {

/// Why the decoding of a reply ended early.
#[derive(Clone, Copy, Debug, PartialEq, Eq, Structural)]
pub enum DecodeError {
    /// The reply is shorter than the smallest envelope.
    Size,
    /// The envelope could not be read.
    Envelope,
    /// The message type is none that answers a request.
    UnknownMessage,
    /// The content is no frame of the shape that the message type calls for.
    Frame(FrameKind),
}

/// What to do next with a reply.
#[derive(Clone, Copy, Debug, PartialEq, Eq, Structural)]
pub enum DecodeAction {
    /// Read the envelope of the reply.
    ReadEnvelope,
    /// Read the content of the envelope as a frame of this shape.
    ReadFrame(FrameKind),
    /// The reply is reported.
    Done,
    /// The reply is given up.
    Fail(DecodeError),
}

/// The outcome of one stage: the text to report, and what to do next.
#[derive(Debug)]
pub struct DecodeStep {
    pub report: String,
    pub action: DecodeAction,
}

/// The shape of the content that answers with this message type carry.
pub open spec fn frame_kind_of(msg_type: MessageType) -> Option<FrameKind> {
    match msg_type {
        MessageType::GsnResponse => Some(FrameKind::Response),
        MessageType::GsnResponseNodeInfo => Some(FrameKind::NodeInfo),
        MessageType::GsnResponseStatus => Some(FrameKind::NodeStatus),
        MessageType::GsnResponseNetwork => Some(FrameKind::Network),
        _ => None,
    }
}

/// What follows the arrival of a reply of `len` bytes.
pub open spec fn packet_action(len: nat, lower_bound: nat) -> DecodeAction {
    if len < lower_bound {
        DecodeAction::Fail(DecodeError::Size)
    } else {
        DecodeAction::ReadEnvelope
    }
}

/// What is reported on the arrival of a reply of `len` bytes.
pub open spec fn packet_report(len: nat, lower_bound: nat) -> Seq<char> {
    if len < lower_bound {
        "!! Error on byte len\n"@
    } else {
        Seq::empty()
    }
}

/// What follows the reading of an envelope.
pub open spec fn envelope_action(header: Option<PacketHeader>) -> DecodeAction {
    match header {
        None => DecodeAction::Fail(DecodeError::Envelope),
        Some(h) => match frame_kind_of(h.msg_type) {
            Some(kind) => DecodeAction::ReadFrame(kind),
            None => DecodeAction::Fail(DecodeError::UnknownMessage),
        },
    }
}

/// The description of a reply in prose: its length, what its header
/// records, and its bytes.
pub open spec fn inbound_text(bytes: Seq<u8>, header: PacketHeader) -> Seq<char> {
    ">> in.bytes.len: "@ + decimal(bytes.len()) + "\n"@ + ">> in.packet.msg_size: "@ + decimal(
        header.msg_size as nat,
    ) + "\n"@ + ">> in.packet.msg_type: "@ + header.msg_type.label() + "\n\n"@ + ">> in.bytes:\n"@
        + dump_text(bytes) + "\n\n"@
}

/// What is reported once the envelope of a reply has been read, or could
/// not be.
pub open spec fn envelope_report(script: bool, bytes: Seq<u8>, header: Option<PacketHeader>) -> Seq<
    char,
> {
    match header {
        None => if script {
            "## deserialise|Packet\n"@
        } else {
            "Failed to deserialise packet\n"@
        },
        Some(h) => (if script {
            Seq::empty()
        } else {
            inbound_text(bytes, h)
        }) + (if frame_kind_of(h.msg_type) is None {
            "!! unknown_message\n"@
        } else {
            Seq::empty()
        }),
    }
}

/// What is reported of content that is no frame of the shape `kind`.
pub open spec fn failure_report(kind: FrameKind, detail: Seq<char>) -> Seq<char> {
    "!! deserialise|"@ + kind.label() + ":"@ + detail + "\n"@
}

/// What is reported of an answer with a result code.
pub open spec fn response_report(script: bool, frame: FrameResponseView) -> Seq<char> {
    (if script {
        "%% Response|FrameResponse:"@
    } else {
        "FrameResponse.code: "@
    }) + frame.code.label() + "\n"@
}

/// What is reported of the description of a node, in prose.
pub open spec fn node_info_prose(types: NodeTypes, frame: FrameNodeInfoView) -> Seq<char> {
    match frame.code {
        ResultCodeView::Other { value, name } => "FrameNodeInfo.code: "@ + decimal(value as nat)
            + "\n"@,
        ResultCodeView::Success => "FrameNodeInfo.type: "@ + types.text() + "\n"@
            + "FrameNodeInfo.service: "@ + frame.service.label() + "\n"@
            + "FrameNodeInfo.address: "@ + ipv4_text(frame.address) + "\n"@
            + "FrameNodeInfo.name: "@ + frame.name + "\n"@,
    }
}

/// What is reported of the description of a node, as a tagged line.
pub open spec fn node_info_line(frame: FrameNodeInfoView) -> Seq<char> {
    match frame.code {
        ResultCodeView::Other { value, name } => "%% Response|FrameNodeInfo:"@ + decimal(
            value as nat,
        ) + "\n"@,
        ResultCodeView::Success => "%% Response|FrameNodeInfo:"@ + decimal(frame.ntype as nat)
            + ";"@ + frame.service.label() + ";"@ + ipv4_text(frame.address) + ";"@ + frame.name
            + "\n"@,
    }
}

/// What is reported of the state of a node.
pub open spec fn node_status_report(script: bool, frame: FrameNodeStatusView) -> Seq<char> {
    match frame.code {
        ResultCodeView::Other { value, name } => (if script {
            "%% Response|FrameNodeStatus:"@
        } else {
            "FrameNodeStatus.code: "@
        }) + name + "\n"@,
        ResultCodeView::Success => (if script {
            "%% Response|FrameNodeStatus:"@
        } else {
            "FrameNodeStatus.status: "@
        }) + frame.status.label() + "\n"@,
    }
}

/// The pieces of a text between its semicolons, empty ones included.
pub open spec fn split_semicolons(text: Seq<char>) -> Seq<Seq<char>>
    decreases text.len(),
{
    if text.len() == 0 {
        seq![Seq::empty()]
    } else {
        let before = split_semicolons(text.drop_last());
        if text.last() == ';' {
            before.push(Seq::empty())
        } else {
            before.drop_last().push(before.last().push(text.last()))
        }
    }
}

/// Every piece that is not empty on a line of its own, with a semicolon
/// after it.
pub open spec fn listing(pieces: Seq<Seq<char>>) -> Seq<char>
    decreases pieces.len(),
{
    if pieces.len() == 0 {
        Seq::empty()
    } else if pieces.last().len() == 0 {
        listing(pieces.drop_last())
    } else {
        listing(pieces.drop_last()) + pieces.last() + ";\n"@
    }
}

/// What is reported of a list of nodes.
pub open spec fn network_report(script: bool, frame: FrameNetworkView) -> Seq<char> {
    if script {
        "%% Response|FrameNetwork:"@ + utf8_lossy(frame.list) + "\n"@
    } else {
        "FrameNetwork.list:\n"@ + listing(split_semicolons(utf8_lossy(frame.list)))
    }
}

/// What is reported of a decoded answer as one tagged line. It is made of
/// the fields of the frame and of nothing else.
pub open spec fn frame_line(frame: ResponseFrameView) -> Seq<char> {
    match frame {
        ResponseFrameView::Response(f) => response_report(true, f),
        ResponseFrameView::NodeInfo(f) => node_info_line(f),
        ResponseFrameView::NodeStatus(f) => node_status_report(true, f),
        ResponseFrameView::Network(f) => network_report(true, f),
    }
}

/// What is reported of a decoded answer in prose.
pub open spec fn frame_prose(proto: Protocol, frame: ResponseFrameView) -> Seq<char> {
    match frame {
        ResponseFrameView::Response(f) => response_report(false, f),
        ResponseFrameView::NodeInfo(f) => node_info_prose(proto.types_of(f.ntype), f),
        ResponseFrameView::NodeStatus(f) => node_status_report(false, f),
        ResponseFrameView::Network(f) => network_report(false, f),
    }
}

/// What is reported of a decoded answer under a configuration.
pub open spec fn frame_report(cfg: ConfigView, proto: Protocol, frame: ResponseFrameView) -> Seq<
    char,
> {
    if cfg.unit_test {
        frame_line(frame)
    } else {
        frame_prose(proto, frame)
    }
}

/// The shape of the content that answers with this message type carry, if
/// the type is one that answers a request.
pub fn route(msg_type: MessageType) -> (kind: Option<FrameKind>)
    ensures
        kind == frame_kind_of(msg_type),
        kind is Some <==> msg_type.is_response(),
{
    match msg_type {
        MessageType::GsnResponse => Some(FrameKind::Response),
        MessageType::GsnResponseNodeInfo => Some(FrameKind::NodeInfo),
        MessageType::GsnResponseStatus => Some(FrameKind::NodeStatus),
        MessageType::GsnResponseNetwork => Some(FrameKind::Network),
        _ => None,
    }
}

/// Takes the bytes of a reply. One that is shorter than the smallest
/// envelope is given up with a size error, whatever it holds: its envelope
/// is not read, and no frame is ever asked for. Any other is to have its
/// envelope read.
pub fn decode_packet(bytes: &[u8], proto: &Protocol) -> (step: DecodeStep)
    ensures
        step.action == packet_action(bytes@.len(), proto.lower_bound as nat),
        step.report@ == packet_report(bytes@.len(), proto.lower_bound as nat),
        bytes@.len() < proto.lower_bound ==> step.action == DecodeAction::Fail(DecodeError::Size),
        !(step.action is ReadFrame),
{
    if bytes.len() < proto.lower_bound {
        DecodeStep {
            report: String::from_str("!! Error on byte len\n"),
            action: DecodeAction::Fail(DecodeError::Size),
        }
    } else {
        DecodeStep { report: String::new(), action: DecodeAction::ReadEnvelope }
    }
}

/// Takes what the reading of the envelope gave: its header, or nothing
/// where the bytes are no envelope. Reports the failure, or in prose the
/// reply as it came, and routes the content by the message type.
pub fn decode_envelope(bytes: &[u8], header: Option<PacketHeader>, cfg: &Config) -> (step:
    DecodeStep)
    ensures
        step.action == envelope_action(header),
        step.report@ == envelope_report(cfg.unit_test, bytes@, header),
{
    match header {
        None => {
            let report = if cfg.unit_test {
                String::from_str("## deserialise|Packet\n")
            } else {
                String::from_str("Failed to deserialise packet\n")
            };
            DecodeStep { report, action: DecodeAction::Fail(DecodeError::Envelope) }
        },
        Some(h) => {
            let mut report = String::new();
            if !cfg.unit_test {
                report.append(">> in.bytes.len: ");
                push_decimal(&mut report, bytes.len() as u64);
                report.append("\n");
                report.append(">> in.packet.msg_size: ");
                push_decimal(&mut report, h.msg_size as u64);
                report.append("\n");
                report.append(">> in.packet.msg_type: ");
                report.append(h.msg_type.name());
                report.append("\n\n");
                report.append(">> in.bytes:\n");
                push_packet_dump(&mut report, bytes);
                report.append("\n\n");
                assert(report@ =~= inbound_text(bytes@, h));
            }
            match route(h.msg_type) {
                Some(kind) => {
                    assert(report@ =~= envelope_report(cfg.unit_test, bytes@, header));
                    DecodeStep { report, action: DecodeAction::ReadFrame(kind) }
                },
                None => {
                    report.append("!! unknown_message\n");
                    assert(report@ =~= envelope_report(cfg.unit_test, bytes@, header));
                    DecodeStep { report, action: DecodeAction::Fail(DecodeError::UnknownMessage) }
                },
            }
        },
    }
}

/// Takes the failure to read the content as a frame of the shape `kind`,
/// with the reason as the serialiser words it.
pub fn decode_failure(kind: FrameKind, detail: &str) -> (step: DecodeStep)
    ensures
        step.action == DecodeAction::Fail(DecodeError::Frame(kind)),
        step.report@ == failure_report(kind, detail@),
{
    let mut report = String::from_str("!! deserialise|");
    report.append(kind.name());
    report.append(":");
    report.append(detail);
    report.append("\n");
    DecodeStep { report, action: DecodeAction::Fail(DecodeError::Frame(kind)) }
}

/// Reports an answer with a result code.
pub fn decode_frame_response(frame: &FrameResponse, cfg: &Config) -> (report: String)
    ensures
        report@ == response_report(cfg.unit_test, frame@),
{
    let mut report = if cfg.unit_test {
        String::from_str("%% Response|FrameResponse:")
    } else {
        String::from_str("FrameResponse.code: ")
    };
    report.append(frame.code.name());
    report.append("\n");
    report
}

/// Reports the description of a node: the result code alone where the
/// request was turned down, else the node's types, service, address and
/// name.
pub fn decode_frame_node_info(frame: &FrameNodeInfo, proto: &Protocol, cfg: &Config) -> (report:
    String)
    ensures
        cfg.unit_test ==> report@ == node_info_line(frame@),
        !cfg.unit_test ==> report@ == node_info_prose(proto.types_of(frame.ntype), frame@),
{
    match &frame.code {
        ResultCode::Other { value, name: _ } => {
            let mut report = if cfg.unit_test {
                String::from_str("%% Response|FrameNodeInfo:")
            } else {
                String::from_str("FrameNodeInfo.code: ")
            };
            push_decimal(&mut report, *value as u64);
            report.append("\n");
            report
        },
        ResultCode::Success => {
            if cfg.unit_test {
                let mut report = String::from_str("%% Response|FrameNodeInfo:");
                push_decimal(&mut report, frame.ntype as u64);
                report.append(";");
                report.append(frame.service.name());
                report.append(";");
                push_ipv4(&mut report, &frame.address);
                report.append(";");
                report.append(frame.name.as_str());
                report.append("\n");
                report
            } else {
                let mut report = String::from_str("FrameNodeInfo.type: ");
                let ghost head = report@;
                match proto.node_types(frame.ntype) {
                    NodeTypes::Undefined => {
                        report.append("undefined");
                    },
                    NodeTypes::Flags { org, root } => {
                        if org {
                            report.append("org ");
                        }
                        if root {
                            report.append("root ");
                        }
                    },
                }
                assert(report@ =~= head + proto.types_of(frame.ntype).text());
                report.append("\n");
                report.append("FrameNodeInfo.service: ");
                report.append(frame.service.name());
                report.append("\n");
                report.append("FrameNodeInfo.address: ");
                push_ipv4(&mut report, &frame.address);
                report.append("\n");
                report.append("FrameNodeInfo.name: ");
                report.append(frame.name.as_str());
                report.append("\n");
                report
            }
        },
    }
}

/// Reports the state of a node, or the result code where the request was
/// turned down.
pub fn decode_frame_node_status(frame: &FrameNodeStatus, cfg: &Config) -> (report: String)
    ensures
        report@ == node_status_report(cfg.unit_test, frame@),
{
    match &frame.code {
        ResultCode::Other { value: _, name } => {
            let mut report = if cfg.unit_test {
                String::from_str("%% Response|FrameNodeStatus:")
            } else {
                String::from_str("FrameNodeStatus.code: ")
            };
            report.append(name.as_str());
            report.append("\n");
            report
        },
        ResultCode::Success => {
            let mut report = if cfg.unit_test {
                String::from_str("%% Response|FrameNodeStatus:")
            } else {
                String::from_str("FrameNodeStatus.status: ")
            };
            report.append(frame.status.name());
            report.append("\n");
            report
        },
    }
}

/// Appends the pieces of `text` between its semicolons, leaving out the
/// empty ones: each on a line of its own, with a semicolon after it.
pub fn push_listing(out: &mut String, text: &str)
    ensures
        final(out)@ == old(out)@ + listing(split_semicolons(text@)),
{
    let n: usize = text.unicode_len();
    let mut start: usize = 0;
    let mut i: usize = 0;
    assert(text@.take(0) =~= Seq::<char>::empty());
    assert(split_semicolons(text@.take(0)).drop_last() =~= Seq::<Seq<char>>::empty());
    assert(text@.subrange(0, 0) =~= Seq::<char>::empty());
    assert(out@ =~= old(out)@ + listing(split_semicolons(text@.take(0)).drop_last()));
    while i < n
        invariant
            n == text@.len(),
            start <= i <= n,
            split_semicolons(text@.take(i as int)).len() > 0,
            split_semicolons(text@.take(i as int)).last() == text@.subrange(
                start as int,
                i as int,
            ),
            out@ == old(out)@ + listing(split_semicolons(text@.take(i as int)).drop_last()),
        decreases n - i,
    {
        let ghost before = split_semicolons(text@.take(i as int));
        let ghost after = split_semicolons(text@.take(i as int + 1));
        assert(text@.take(i as int + 1).drop_last() =~= text@.take(i as int));
        assert(text@.take(i as int + 1).last() == text@[i as int]);
        if text.get_char(i) == ';' {
            assert(after == before.push(Seq::empty()));
            assert(after.drop_last() =~= before);
            if start < i {
                out.append(text.substring_char(start, i));
                out.append(";\n");
            }
            assert(out@ =~= old(out)@ + listing(after.drop_last()));
            start = i + 1;
            assert(text@.subrange(start as int, i as int + 1) =~= Seq::<char>::empty());
        } else {
            assert(after == before.drop_last().push(before.last().push(text@[i as int])));
            assert(after.drop_last() =~= before.drop_last());
            assert(text@.subrange(start as int, i as int + 1) =~= before.last().push(
                text@[i as int],
            ));
        }
        i += 1;
    }
    assert(text@.take(n as int) =~= text@);
    if start < n {
        out.append(text.substring_char(start, n));
        out.append(";\n");
    }
    assert(out@ =~= old(out)@ + listing(split_semicolons(text@)));
}

/// Reports a list of nodes: in prose every entry on a line of its own, as
/// a tagged line the list as it came.
pub fn decode_frame_network(frame: &FrameNetwork, cfg: &Config) -> (report: String)
    ensures
        report@ == network_report(cfg.unit_test, frame@),
{
    let nodelist = text_from_utf8_lossy(frame.list.as_slice());
    if cfg.unit_test {
        let mut report = String::from_str("%% Response|FrameNetwork:");
        report.append(nodelist.as_str());
        report.append("\n");
        report
    } else {
        let mut report = String::from_str("FrameNetwork.list:\n");
        push_listing(&mut report, nodelist.as_str());
        report
    }
}

/// Takes a decoded answer and reports it. As tagged lines the report is
/// made of the fields of the frame alone.
pub fn decode_frame(frame: &ResponseFrame, proto: &Protocol, cfg: &Config) -> (step: DecodeStep)
    ensures
        step.action == DecodeAction::Done,
        step.report@ == frame_report(cfg@, *proto, frame@),
        cfg.unit_test ==> step.report@ == frame_line(frame@),
{
    let report = match frame {
        ResponseFrame::Response(f) => decode_frame_response(f, cfg),
        ResponseFrame::NodeInfo(f) => decode_frame_node_info(f, proto, cfg),
        ResponseFrame::NodeStatus(f) => decode_frame_node_status(f, cfg),
        ResponseFrame::Network(f) => decode_frame_network(f, cfg),
    };
    DecodeStep { report, action: DecodeAction::Done }
}

/// The report of an answer as tagged lines depends on the fields of the
/// frame alone: whatever else two runs were told, and whatever their wire
/// formats, they report one frame alike.
pub proof fn lemma_script_report_depends_on_frame_alone(
    a: ConfigView,
    b: ConfigView,
    p: Protocol,
    q: Protocol,
    frame: ResponseFrameView,
)
    requires
        a.unit_test,
        b.unit_test,
    ensures
        frame_report(a, p, frame) == frame_report(b, q, frame),
{
}

/// As tagged lines nothing is reported of the bytes of a reply: two replies
/// with one header are reported alike.
pub proof fn lemma_script_report_shows_no_bytes(
    first: Seq<u8>,
    second: Seq<u8>,
    header: Option<PacketHeader>,
)
    ensures
        envelope_report(true, first, header) == envelope_report(true, second, header),
{
}

/// The steps that the decoding of a reply is asked to take, where the
/// envelope, once it is read, has `header`: the reading of the envelope,
/// if the length of the reply allows it, and then what the header calls
/// for.
pub open spec fn steps_taken(len: nat, lower_bound: nat, header: Option<PacketHeader>) -> Seq<
    DecodeAction,
> {
    if packet_action(len, lower_bound) == DecodeAction::ReadEnvelope {
        seq![DecodeAction::ReadEnvelope, envelope_action(header)]
    } else {
        seq![packet_action(len, lower_bound)]
    }
}

/// A reply that is shorter than the smallest envelope is given up with a
/// size error before anything is read from it: neither its envelope nor a
/// frame, whatever message type its bytes would give.
pub proof fn lemma_short_reply_is_rejected(len: nat, lower_bound: nat, header: Option<PacketHeader>)
    requires
        len < lower_bound,
    ensures
        steps_taken(len, lower_bound, header) == seq![DecodeAction::Fail(DecodeError::Size)],
        packet_report(len, lower_bound) == "!! Error on byte len\n"@,
{
}

/// A frame is asked for only after the envelope of a reply that is long
/// enough has been read, and only where its message type is one that
/// answers a request.
pub proof fn lemma_frames_follow_answers(len: nat, lower_bound: nat, header: Option<PacketHeader>)
    ensures
        forall|i: int|
            0 <= i < steps_taken(len, lower_bound, header).len() && (#[trigger] steps_taken(
                len,
                lower_bound,
                header,
            )[i] is ReadFrame) ==> i == 1 && len >= lower_bound && header is Some
                && header->0.msg_type.is_response(),
{
}

} // verus!
