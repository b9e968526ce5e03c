use packet_forge::config::Config;
use packet_forge::decode::{
    decode_envelope, decode_failure, decode_frame, decode_frame_network, decode_frame_node_info,
    decode_frame_node_status, decode_frame_response, decode_packet, route, DecodeAction,
    DecodeError,
};
use packet_forge::enums::{MessageType, NodeService, NodeState, ResultCode};
use packet_forge::frames::{
    FrameKind, FrameNetwork, FrameNodeInfo, FrameNodeStatus, FrameResponse, PacketHeader,
    ResponseFrame,
};
use packet_forge::protocol::{NodeTypes, Protocol};

fn protocol() -> Protocol {
    Protocol {
        lower_bound: 14,
        message_codes: vec![1, 2, 30, 31, 32, 33],
        type_undefined: 0,
        type_org: 2,
        type_root: 1,
    }
}

fn prose() -> Config {
    Config::new()
}

fn script() -> Config {
    let mut cfg = Config::new();
    cfg.unit_test = true;
    cfg
}

fn rejected() -> ResultCode {
    ResultCode::Other { value: 101, name: String::from("NetspaceError") }
}

fn example_node() -> FrameNodeInfo {
    FrameNodeInfo {
        code: ResultCode::Success,
        ntype: 2,
        service: NodeService::Http,
        address: [93, 184, 216, 34],
        name: String::from("Example"),
    }
}

#[test]
fn a_reply_of_three_bytes_is_a_size_error() {
    let step = decode_packet(&[30, 0, 0], &protocol());
    assert_eq!(step.action, DecodeAction::Fail(DecodeError::Size));
    assert_eq!(step.report, "!! Error on byte len\n");
}

#[test]
fn short_replies_are_rejected_whatever_their_first_byte() {
    let proto = protocol();
    for len in 0..14usize {
        for first in [0u8, 1, 30, 31, 32, 33, 255] {
            let bytes = vec![first; len];
            let step = decode_packet(&bytes, &proto);
            assert_eq!(step.action, DecodeAction::Fail(DecodeError::Size));
        }
    }
}

#[test]
fn a_reply_of_the_smallest_size_has_its_envelope_read() {
    let step = decode_packet(&[0; 14], &protocol());
    assert_eq!(step.action, DecodeAction::ReadEnvelope);
    assert_eq!(step.report, "");
    let step = decode_packet(&[0; 768], &protocol());
    assert_eq!(step.action, DecodeAction::ReadEnvelope);
}

#[test]
fn answers_are_routed_by_message_type() {
    assert_eq!(route(MessageType::GsnResponse), Some(FrameKind::Response));
    assert_eq!(route(MessageType::GsnResponseNodeInfo), Some(FrameKind::NodeInfo));
    assert_eq!(route(MessageType::GsnResponseStatus), Some(FrameKind::NodeStatus));
    assert_eq!(route(MessageType::GsnResponseNetwork), Some(FrameKind::Network));
}

#[test]
fn requests_are_routed_nowhere() {
    for msg_type in [
        MessageType::Undefined,
        MessageType::GsnRegistration,
        MessageType::GsnResolution,
        MessageType::GsnArea,
        MessageType::GsnState,
        MessageType::GsnNodeInfo,
        MessageType::GsnNodeStatus,
        MessageType::GsnTypeRequest,
        MessageType::GtnRegistration,
        MessageType::GtnGeosubNodes,
        MessageType::UnitTest,
    ] {
        assert_eq!(route(msg_type), None);
    }
}

#[test]
fn an_unreadable_envelope_is_reported_in_both_ways() {
    let bytes = [0u8; 14];
    let step = decode_envelope(&bytes, None, &prose());
    assert_eq!(step.action, DecodeAction::Fail(DecodeError::Envelope));
    assert_eq!(step.report, "Failed to deserialise packet\n");
    let step = decode_envelope(&bytes, None, &script());
    assert_eq!(step.action, DecodeAction::Fail(DecodeError::Envelope));
    assert_eq!(step.report, "## deserialise|Packet\n");
}

#[test]
fn an_envelope_is_described_in_prose() {
    let mut bytes: Vec<u8> = vec![30, 0, 4, 0, 0, 0, 127, 0, 0, 1, 127, 0, 0, 1];
    bytes.extend_from_slice(&[200, 0, 0, 0]);
    let header = PacketHeader { msg_type: MessageType::GsnResponse, msg_size: 4 };
    let step = decode_envelope(&bytes, Some(header), &prose());
    assert_eq!(step.action, DecodeAction::ReadFrame(FrameKind::Response));
    assert_eq!(
        step.report,
        ">> in.bytes.len: 18\n>> in.packet.msg_size: 4\n>> in.packet.msg_type: GsnResponse\n\n\
         >> in.bytes:\n1e 00 04 00 00 00 7f 00 00 01 7f 00 00 01 \nc8 00 00 00 \n\n"
    );
}

#[test]
fn an_envelope_is_not_described_as_tagged_lines() {
    let bytes = [0u8; 20];
    let header = PacketHeader { msg_type: MessageType::GsnResponseNodeInfo, msg_size: 6 };
    let step = decode_envelope(&bytes, Some(header), &script());
    assert_eq!(step.action, DecodeAction::ReadFrame(FrameKind::NodeInfo));
    assert_eq!(step.report, "");
}

#[test]
fn a_request_in_place_of_an_answer_is_an_unknown_message() {
    let bytes = [1u8; 14];
    let header = PacketHeader { msg_type: MessageType::GsnRegistration, msg_size: 0 };
    let step = decode_envelope(&bytes, Some(header), &script());
    assert_eq!(step.action, DecodeAction::Fail(DecodeError::UnknownMessage));
    assert_eq!(step.report, "!! unknown_message\n");
    let step = decode_envelope(&bytes, Some(header), &prose());
    assert_eq!(step.action, DecodeAction::Fail(DecodeError::UnknownMessage));
    assert_eq!(
        step.report,
        ">> in.bytes.len: 14\n>> in.packet.msg_size: 0\n>> in.packet.msg_type: GsnRegistration\n\n\
         >> in.bytes:\n01 01 01 01 01 01 01 01 01 01 01 01 01 01 \n\n!! unknown_message\n"
    );
}

#[test]
fn content_of_the_wrong_shape_is_reported_with_its_kind() {
    let step = decode_failure(FrameKind::Response, "InvalidBytes");
    assert_eq!(step.action, DecodeAction::Fail(DecodeError::Frame(FrameKind::Response)));
    assert_eq!(step.report, "!! deserialise|FrameResponse:InvalidBytes\n");
    let step = decode_failure(FrameKind::NodeInfo, "OutOfBounds");
    assert_eq!(step.report, "!! deserialise|FrameNodeInfo:OutOfBounds\n");
    let step = decode_failure(FrameKind::NodeStatus, "");
    assert_eq!(step.action, DecodeAction::Fail(DecodeError::Frame(FrameKind::NodeStatus)));
    assert_eq!(step.report, "!! deserialise|FrameNodeStatus:\n");
    let step = decode_failure(FrameKind::Network, "x");
    assert_eq!(step.report, "!! deserialise|FrameNetwork:x\n");
}

#[test]
fn registration_answered_with_ok() {
    let proto = protocol();
    let reply = [30u8; 18];
    assert_eq!(decode_packet(&reply, &proto).action, DecodeAction::ReadEnvelope);
    let header = PacketHeader { msg_type: MessageType::GsnResponse, msg_size: 4 };
    let step = decode_envelope(&reply, Some(header), &script());
    assert_eq!(step.action, DecodeAction::ReadFrame(FrameKind::Response));
    let frame = ResponseFrame::Response(FrameResponse { code: ResultCode::Success });
    let step = decode_frame(&frame, &proto, &script());
    assert_eq!(step.action, DecodeAction::Done);
    assert_eq!(step.report, "%% Response|FrameResponse:Ok\n");
    let step = decode_frame(&frame, &proto, &prose());
    assert_eq!(step.report, "FrameResponse.code: Ok\n");
}

#[test]
fn a_response_that_is_not_ok_shows_its_code() {
    let frame = FrameResponse { code: rejected() };
    assert_eq!(decode_frame_response(&frame, &prose()), "FrameResponse.code: NetspaceError\n");
    assert_eq!(
        decode_frame_response(&frame, &script()),
        "%% Response|FrameResponse:NetspaceError\n"
    );
}

#[test]
fn node_info_of_example_org() {
    let proto = protocol();
    let frame = example_node();
    assert_eq!(
        decode_frame_node_info(&frame, &proto, &prose()),
        "FrameNodeInfo.type: org \nFrameNodeInfo.service: Http\n\
         FrameNodeInfo.address: 93.184.216.34\nFrameNodeInfo.name: Example\n"
    );
    assert_eq!(
        decode_frame_node_info(&frame, &proto, &script()),
        "%% Response|FrameNodeInfo:2;Http;93.184.216.34;Example\n"
    );
}

#[test]
fn node_info_with_both_types_and_with_none() {
    let proto = protocol();
    let mut frame = example_node();
    frame.ntype = 3;
    assert!(decode_frame_node_info(&frame, &proto, &prose())
        .starts_with("FrameNodeInfo.type: org root \n"));
    frame.ntype = 1;
    assert!(decode_frame_node_info(&frame, &proto, &prose())
        .starts_with("FrameNodeInfo.type: root \n"));
    frame.ntype = 4;
    assert!(decode_frame_node_info(&frame, &proto, &prose()).starts_with("FrameNodeInfo.type: \n"));
    frame.ntype = 0;
    assert!(decode_frame_node_info(&frame, &proto, &prose())
        .starts_with("FrameNodeInfo.type: undefined\n"));
    assert_eq!(
        decode_frame_node_info(&frame, &proto, &script()),
        "%% Response|FrameNodeInfo:0;Http;93.184.216.34;Example\n"
    );
}

#[test]
fn node_types_are_read_from_bits() {
    let proto = protocol();
    assert_eq!(proto.node_types(0), NodeTypes::Undefined);
    assert_eq!(proto.node_types(1), NodeTypes::Flags { org: false, root: true });
    assert_eq!(proto.node_types(2), NodeTypes::Flags { org: true, root: false });
    assert_eq!(proto.node_types(3), NodeTypes::Flags { org: true, root: true });
    assert_eq!(proto.node_types(4), NodeTypes::Flags { org: false, root: false });
}

#[test]
fn node_info_that_is_not_ok_shows_the_number_alone() {
    let proto = protocol();
    let mut frame = example_node();
    frame.code = rejected();
    assert_eq!(decode_frame_node_info(&frame, &proto, &prose()), "FrameNodeInfo.code: 101\n");
    assert_eq!(
        decode_frame_node_info(&frame, &proto, &script()),
        "%% Response|FrameNodeInfo:101\n"
    );
}

#[test]
fn node_status_shows_the_state() {
    let frame = FrameNodeStatus { code: ResultCode::Success, status: NodeState::Enabled };
    assert_eq!(decode_frame_node_status(&frame, &prose()), "FrameNodeStatus.status: Enabled\n");
    assert_eq!(
        decode_frame_node_status(&frame, &script()),
        "%% Response|FrameNodeStatus:Enabled\n"
    );
}

#[test]
fn node_status_that_is_not_ok_shows_the_code() {
    let frame = FrameNodeStatus { code: rejected(), status: NodeState::Enabled };
    assert_eq!(
        decode_frame_node_status(&frame, &prose()),
        "FrameNodeStatus.code: NetspaceError\n"
    );
    assert_eq!(
        decode_frame_node_status(&frame, &script()),
        "%% Response|FrameNodeStatus:NetspaceError\n"
    );
}

#[test]
fn network_lists_every_entry_on_a_line() {
    let frame = FrameNetwork { list: b"alpha,a.example,10.0.0.1;beta,b.example,10.0.0.2;".to_vec() };
    assert_eq!(
        decode_frame_network(&frame, &prose()),
        "FrameNetwork.list:\nalpha,a.example,10.0.0.1;\nbeta,b.example,10.0.0.2;\n"
    );
    assert_eq!(
        decode_frame_network(&frame, &script()),
        "%% Response|FrameNetwork:alpha,a.example,10.0.0.1;beta,b.example,10.0.0.2;\n"
    );
}

#[test]
fn network_leaves_out_empty_entries() {
    let frame = FrameNetwork { list: b";;a;;b;c".to_vec() };
    assert_eq!(decode_frame_network(&frame, &prose()), "FrameNetwork.list:\na;\nb;\nc;\n");
    let frame = FrameNetwork { list: Vec::new() };
    assert_eq!(decode_frame_network(&frame, &prose()), "FrameNetwork.list:\n");
    assert_eq!(decode_frame_network(&frame, &script()), "%% Response|FrameNetwork:\n");
    let frame = FrameNetwork { list: b";;;".to_vec() };
    assert_eq!(decode_frame_network(&frame, &prose()), "FrameNetwork.list:\n");
}

#[test]
fn network_reads_bytes_that_are_no_text_with_a_mark() {
    let frame = FrameNetwork { list: vec![b'a', 0xff, b';', 0xc3, 0xa9] };
    assert_eq!(
        decode_frame_network(&frame, &script()),
        "%% Response|FrameNetwork:a\u{fffd};\u{e9}\n"
    );
    assert_eq!(
        decode_frame_network(&frame, &prose()),
        "FrameNetwork.list:\na\u{fffd};\n\u{e9};\n"
    );
}

#[test]
fn tagged_lines_do_not_depend_on_the_protocol_or_the_rest_of_the_configuration() {
    let frame = ResponseFrame::NodeInfo(example_node());
    let mut other = protocol();
    other.type_org = 8;
    other.type_undefined = 2;
    other.lower_bound = 99;
    let mut cfg = script();
    cfg.fuzzy = true;
    cfg.port = 1;
    cfg.text_content = String::from("x");
    let first = decode_frame(&frame, &protocol(), &script());
    let second = decode_frame(&frame, &other, &cfg);
    assert_eq!(first.report, second.report);
    assert_eq!(first.report, "%% Response|FrameNodeInfo:2;Http;93.184.216.34;Example\n");
}

#[test]
fn every_shape_is_reported_through_one_door() {
    let proto = protocol();
    let frame = ResponseFrame::NodeStatus(FrameNodeStatus {
        code: ResultCode::Success,
        status: NodeState::Disabled,
    });
    let step = decode_frame(&frame, &proto, &script());
    assert_eq!(step.action, DecodeAction::Done);
    assert_eq!(step.report, "%% Response|FrameNodeStatus:Disabled\n");
    let frame = ResponseFrame::Network(FrameNetwork { list: b"a;b".to_vec() });
    let step = decode_frame(&frame, &proto, &prose());
    assert_eq!(step.report, "FrameNetwork.list:\na;\nb;\n");
}
