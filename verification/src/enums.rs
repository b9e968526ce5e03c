//! The closed enumerations of the protocol, their names as they are shown
//! to an operator, and the command-line tokens that select them.
//!
//! An unrecognised token never fails: it selects the enumeration's
//! "undefined" member, so that malformed requests can be forged on purpose.

use vstd::prelude::*;
use crate::text::same_text;

verus! {

/// What a message asks for or answers.
#[derive(Clone, Copy, Debug, PartialEq, Eq, Structural)]
pub enum MessageType {
    Undefined,
    GsnRegistration,
    GsnResolution,
    GsnArea,
    GsnState,
    GsnNodeInfo,
    GsnNodeStatus,
    GsnTypeRequest,
    GtnRegistration,
    GtnGeosubNodes,
    UnitTest,
    GsnResponse,
    GsnResponseNodeInfo,
    GsnResponseStatus,
    GsnResponseNetwork,
}

/// The classification of a node.
#[derive(Clone, Copy, Debug, PartialEq, Eq, Structural)]
pub enum NodeType {
    Undefined,
    Root,
    Org,
}

/// The operational state of a node.
#[derive(Clone, Copy, Debug, PartialEq, Eq, Structural)]
pub enum NodeState {
    Disabled,
    Enabled,
    Unresponsive,
    Unspecified,
}

/// The service a node offers.
#[derive(Clone, Copy, Debug, PartialEq, Eq, Structural)]
pub enum NodeService {
    Undefined,
    Dvsp,
    Http,
}

/// A directive for a node that runs under test.
#[derive(Clone, Copy, Debug, PartialEq, Eq, Structural)]
pub enum UnitTestAction {
    Undefined,
    Reset,
    UpdateAddress,
    AddGeosubRoot,
}

/// The outcome code of a handled request: success, or the number and the
/// name of the code that the node answered with.
#[derive(Clone, Debug)]
pub enum ResultCode {
    Success,
    Other { value: u32, name: String },
}

/// A result code with its name as a sequence of characters.
pub enum ResultCodeView {
    Success,
    Other { value: u32, name: Seq<char> },
}

impl View for ResultCode {
    type V = ResultCodeView;

    open spec fn view(&self) -> ResultCodeView {
        match *self {
            ResultCode::Success => ResultCodeView::Success,
            ResultCode::Other { value, name } => ResultCodeView::Other { value, name: name@ },
        }
    }
}

impl ResultCodeView {
    /// The name shown for the code.
    pub open spec fn label(self) -> Seq<char> {
        match self {
            ResultCodeView::Success => "Ok"@,
            ResultCodeView::Other { value, name } => name,
        }
    }
}

impl ResultCode {
    /// Whether the request succeeded.
    pub fn is_ok(&self) -> (r: bool)
        ensures
            r == (self@ is Success),
    {
        match self {
            ResultCode::Success => true,
            ResultCode::Other { .. } => false,
        }
    }

    /// The name shown for the code.
    pub fn name(&self) -> (s: &str)
        ensures
            s@ == self@.label(),
    {
        match self {
            ResultCode::Success => "Ok",
            ResultCode::Other { value: _, name } => name.as_str(),
        }
    }
}

impl MessageType {
    /// The name shown for the message type.
    pub open spec fn label(self) -> Seq<char> {
        match self {
            MessageType::Undefined => "Undefined"@,
            MessageType::GsnRegistration => "GsnRegistration"@,
            MessageType::GsnResolution => "GsnResolution"@,
            MessageType::GsnArea => "GsnArea"@,
            MessageType::GsnState => "GsnState"@,
            MessageType::GsnNodeInfo => "GsnNodeInfo"@,
            MessageType::GsnNodeStatus => "GsnNodeStatus"@,
            MessageType::GsnTypeRequest => "GsnTypeRequest"@,
            MessageType::GtnRegistration => "GtnRegistration"@,
            MessageType::GtnGeosubNodes => "GtnGeosubNodes"@,
            MessageType::UnitTest => "UnitTest"@,
            MessageType::GsnResponse => "GsnResponse"@,
            MessageType::GsnResponseNodeInfo => "GsnResponseNodeInfo"@,
            MessageType::GsnResponseStatus => "GsnResponseStatus"@,
            MessageType::GsnResponseNetwork => "GsnResponseNetwork"@,
        }
    }

    /// Whether the type is one that only a node sends, in answer to a request.
    pub open spec fn is_response(self) -> bool {
        self == MessageType::GsnResponse || self == MessageType::GsnResponseNodeInfo || self
            == MessageType::GsnResponseStatus || self == MessageType::GsnResponseNetwork
    }

    /// The name shown for the message type.
    pub fn name(&self) -> (s: &'static str)
        ensures
            s@ == self.label(),
    {
        match self {
            MessageType::Undefined => "Undefined",
            MessageType::GsnRegistration => "GsnRegistration",
            MessageType::GsnResolution => "GsnResolution",
            MessageType::GsnArea => "GsnArea",
            MessageType::GsnState => "GsnState",
            MessageType::GsnNodeInfo => "GsnNodeInfo",
            MessageType::GsnNodeStatus => "GsnNodeStatus",
            MessageType::GsnTypeRequest => "GsnTypeRequest",
            MessageType::GtnRegistration => "GtnRegistration",
            MessageType::GtnGeosubNodes => "GtnGeosubNodes",
            MessageType::UnitTest => "UnitTest",
            MessageType::GsnResponse => "GsnResponse",
            MessageType::GsnResponseNodeInfo => "GsnResponseNodeInfo",
            MessageType::GsnResponseStatus => "GsnResponseStatus",
            MessageType::GsnResponseNetwork => "GsnResponseNetwork",
        }
    }
}

impl NodeState {
    /// The name shown for the state.
    pub open spec fn label(self) -> Seq<char> {
        match self {
            NodeState::Disabled => "Disabled"@,
            NodeState::Enabled => "Enabled"@,
            NodeState::Unresponsive => "Unresponsive"@,
            NodeState::Unspecified => "Unspecified"@,
        }
    }

    /// The name shown for the state.
    pub fn name(&self) -> (s: &'static str)
        ensures
            s@ == self.label(),
    {
        match self {
            NodeState::Disabled => "Disabled",
            NodeState::Enabled => "Enabled",
            NodeState::Unresponsive => "Unresponsive",
            NodeState::Unspecified => "Unspecified",
        }
    }
}

impl NodeService {
    /// The name shown for the service.
    pub open spec fn label(self) -> Seq<char> {
        match self {
            NodeService::Undefined => "Undefined"@,
            NodeService::Dvsp => "Dvsp"@,
            NodeService::Http => "Http"@,
        }
    }

    /// The name shown for the service.
    pub fn name(&self) -> (s: &'static str)
        ensures
            s@ == self.label(),
    {
        match self {
            NodeService::Undefined => "Undefined",
            NodeService::Dvsp => "Dvsp",
            NodeService::Http => "Http",
        }
    }
}

/// The message type that a token selects.
pub open spec fn msg_type_of(token: Seq<char>) -> MessageType {
    if token == "gsn_registration"@ {
        MessageType::GsnRegistration
    } else if token == "gsn_response"@ {
        MessageType::GsnResponse
    } else if token == "gsn_state_update"@ {
        MessageType::GsnState
    } else if token == "gsn_node_status"@ {
        MessageType::GsnNodeStatus
    } else if token == "gsn_resolution"@ {
        MessageType::GsnResolution
    } else if token == "gsn_type_request"@ {
        MessageType::GsnTypeRequest
    } else if token == "gsn_area"@ {
        MessageType::GsnArea
    } else if token == "gsn_node_info"@ {
        MessageType::GsnNodeInfo
    } else if token == "gtn_registration"@ {
        MessageType::GtnRegistration
    } else if token == "gtn_geosub_nodes"@ {
        MessageType::GtnGeosubNodes
    } else if token == "gsn_unit_test"@ {
        MessageType::UnitTest
    } else {
        MessageType::Undefined
    }
}

/// The node type that a token selects.
pub open spec fn node_type_of(token: Seq<char>) -> NodeType {
    if token == "org"@ {
        NodeType::Org
    } else if token == "root"@ {
        NodeType::Root
    } else {
        NodeType::Undefined
    }
}

/// The node state that a token selects.
pub open spec fn node_state_of(token: Seq<char>) -> NodeState {
    if token == "enabled"@ {
        NodeState::Enabled
    } else if token == "disabled"@ {
        NodeState::Disabled
    } else if token == "unresponsive"@ {
        NodeState::Unresponsive
    } else {
        NodeState::Unspecified
    }
}

/// The service that a token selects.
pub open spec fn node_service_of(token: Seq<char>) -> NodeService {
    if token == "dvsp"@ {
        NodeService::Dvsp
    } else if token == "http"@ {
        NodeService::Http
    } else {
        NodeService::Undefined
    }
}

/// The test directive that a token selects.
pub open spec fn test_action_of(token: Seq<char>) -> UnitTestAction {
    if token == "reset"@ {
        UnitTestAction::Reset
    } else if token == "update-address"@ {
        UnitTestAction::UpdateAddress
    } else if token == "add-gsn-root"@ {
        UnitTestAction::AddGeosubRoot
    } else {
        UnitTestAction::Undefined
    }
}

/// Reads a message type from its token.
pub fn modify_msg_type(arg: &str) -> (t: MessageType)
    ensures
        t == msg_type_of(arg@),
{
    if same_text(arg, "gsn_registration") {
        MessageType::GsnRegistration
    } else if same_text(arg, "gsn_response") {
        MessageType::GsnResponse
    } else if same_text(arg, "gsn_state_update") {
        MessageType::GsnState
    } else if same_text(arg, "gsn_node_status") {
        MessageType::GsnNodeStatus
    } else if same_text(arg, "gsn_resolution") {
        MessageType::GsnResolution
    } else if same_text(arg, "gsn_type_request") {
        MessageType::GsnTypeRequest
    } else if same_text(arg, "gsn_area") {
        MessageType::GsnArea
    } else if same_text(arg, "gsn_node_info") {
        MessageType::GsnNodeInfo
    } else if same_text(arg, "gtn_registration") {
        MessageType::GtnRegistration
    } else if same_text(arg, "gtn_geosub_nodes") {
        MessageType::GtnGeosubNodes
    } else if same_text(arg, "gsn_unit_test") {
        MessageType::UnitTest
    } else {
        MessageType::Undefined
    }
}

/// Reads the registration flag from its token: set by `true` alone.
pub fn modify_node_register(arg: &str) -> (r: bool)
    ensures
        r == (arg@ == "true"@),
{
    same_text(arg, "true")
}

/// Reads a node type from its token.
pub fn modify_node_type(arg: &str) -> (t: NodeType)
    ensures
        t == node_type_of(arg@),
{
    if same_text(arg, "org") {
        NodeType::Org
    } else if same_text(arg, "root") {
        NodeType::Root
    } else {
        NodeType::Undefined
    }
}

/// Reads a node state from its token.
pub fn modify_node_state(arg: &str) -> (s: NodeState)
    ensures
        s == node_state_of(arg@),
{
    if same_text(arg, "enabled") {
        NodeState::Enabled
    } else if same_text(arg, "disabled") {
        NodeState::Disabled
    } else if same_text(arg, "unresponsive") {
        NodeState::Unresponsive
    } else {
        NodeState::Unspecified
    }
}

/// Reads a service from its token.
pub fn modify_node_service(arg: &str) -> (s: NodeService)
    ensures
        s == node_service_of(arg@),
{
    if same_text(arg, "dvsp") {
        NodeService::Dvsp
    } else if same_text(arg, "http") {
        NodeService::Http
    } else {
        NodeService::Undefined
    }
}

/// Reads a test directive from its token.
pub fn modify_test_action(arg: &str) -> (a: UnitTestAction)
    ensures
        a == test_action_of(arg@),
{
    if same_text(arg, "reset") {
        UnitTestAction::Reset
    } else if same_text(arg, "update-address") {
        UnitTestAction::UpdateAddress
    } else if same_text(arg, "add-gsn-root") {
        UnitTestAction::AddGeosubRoot
    } else {
        UnitTestAction::Undefined
    }
}

} // verus!
