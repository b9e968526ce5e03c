use packet_forge::enums::{
    modify_msg_type, modify_node_register, modify_node_service, modify_node_state,
    modify_node_type, modify_test_action, MessageType, NodeService, NodeState, NodeType,
    ResultCode, UnitTestAction,
};

#[test]
fn message_type_tokens() {
    assert_eq!(modify_msg_type("gsn_registration"), MessageType::GsnRegistration);
    assert_eq!(modify_msg_type("gsn_response"), MessageType::GsnResponse);
    assert_eq!(modify_msg_type("gsn_state_update"), MessageType::GsnState);
    assert_eq!(modify_msg_type("gsn_node_status"), MessageType::GsnNodeStatus);
    assert_eq!(modify_msg_type("gsn_resolution"), MessageType::GsnResolution);
    assert_eq!(modify_msg_type("gsn_type_request"), MessageType::GsnTypeRequest);
    assert_eq!(modify_msg_type("gsn_area"), MessageType::GsnArea);
    assert_eq!(modify_msg_type("gsn_node_info"), MessageType::GsnNodeInfo);
    assert_eq!(modify_msg_type("gtn_registration"), MessageType::GtnRegistration);
    assert_eq!(modify_msg_type("gtn_geosub_nodes"), MessageType::GtnGeosubNodes);
    assert_eq!(modify_msg_type("gsn_unit_test"), MessageType::UnitTest);
}

#[test]
fn unknown_message_type_token_is_undefined() {
    assert_eq!(modify_msg_type(""), MessageType::Undefined);
    assert_eq!(modify_msg_type("gsn_registratio"), MessageType::Undefined);
    assert_eq!(modify_msg_type("GSN_REGISTRATION"), MessageType::Undefined);
    assert_eq!(modify_msg_type("gsn_response_node_info"), MessageType::Undefined);
}

#[test]
fn register_flag_is_set_by_true_alone() {
    assert!(modify_node_register("true"));
    assert!(!modify_node_register("false"));
    assert!(!modify_node_register("True"));
    assert!(!modify_node_register(""));
}

#[test]
fn node_type_tokens() {
    assert_eq!(modify_node_type("org"), NodeType::Org);
    assert_eq!(modify_node_type("root"), NodeType::Root);
    assert_eq!(modify_node_type("trusted"), NodeType::Undefined);
}

#[test]
fn node_state_tokens() {
    assert_eq!(modify_node_state("enabled"), NodeState::Enabled);
    assert_eq!(modify_node_state("disabled"), NodeState::Disabled);
    assert_eq!(modify_node_state("unresponsive"), NodeState::Unresponsive);
    assert_eq!(modify_node_state("asleep"), NodeState::Unspecified);
}

#[test]
fn node_service_tokens() {
    assert_eq!(modify_node_service("dvsp"), NodeService::Dvsp);
    assert_eq!(modify_node_service("http"), NodeService::Http);
    assert_eq!(modify_node_service("ftp"), NodeService::Undefined);
}

#[test]
fn test_action_tokens() {
    assert_eq!(modify_test_action("reset"), UnitTestAction::Reset);
    assert_eq!(modify_test_action("update-address"), UnitTestAction::UpdateAddress);
    assert_eq!(modify_test_action("add-gsn-root"), UnitTestAction::AddGeosubRoot);
    assert_eq!(modify_test_action("update_address"), UnitTestAction::Undefined);
}

#[test]
fn names_are_the_members_as_written() {
    assert_eq!(MessageType::GsnResponseNodeInfo.name(), "GsnResponseNodeInfo");
    assert_eq!(MessageType::Undefined.name(), "Undefined");
    assert_eq!(NodeState::Unresponsive.name(), "Unresponsive");
    assert_eq!(NodeService::Http.name(), "Http");
}

#[test]
fn result_code_names() {
    assert!(ResultCode::Success.is_ok());
    assert_eq!(ResultCode::Success.name(), "Ok");
    let code = ResultCode::Other { value: 101, name: String::from("NetspaceError") };
    assert!(!code.is_ok());
    assert_eq!(code.name(), "NetspaceError");
}
