//! The frames that travel inside an envelope: the requests that the client
//! forges, and the answers of a node as their decoder hands them over.

use vstd::prelude::*;
use crate::enums::{
    MessageType,
    NodeService,
    NodeState,
    NodeType,
    ResultCode,
    ResultCodeView,
    UnitTestAction,
};

verus! {

/// The content of a request, before it is serialised.
#[derive(Clone, Debug)]
pub enum RequestFrame {
    /// Registers or unregisters a node of the local netspace.
    Register { register: bool, ntype: NodeType, service: NodeService, name: String },
    /// Asks for the node that a URI resolves to.
    Resolution { query: String },
    /// Sets the state of a node.
    StateUpdate { state: NodeState, name: String },
    /// Asks for the details or for the status of a node.
    NodeRequest { key: String },
    /// Asks for the nodes of one type.
    TypeRequest { ntype: NodeType },
    /// Directs a node that runs under test.
    UnitTest { action: UnitTestAction, extra: String },
    /// Registers or unregisters a node with the top-level netspace.
    RegisterGtn { register: bool, service: NodeService, name: String },
    /// Asks for the root nodes of a geosub.
    Geosub { name: String },
    /// No content at all.
    Empty,
}

/// A request frame with its texts as sequences of characters.
pub enum RequestFrameView {
    Register { register: bool, ntype: NodeType, service: NodeService, name: Seq<char> },
    Resolution { query: Seq<char> },
    StateUpdate { state: NodeState, name: Seq<char> },
    NodeRequest { key: Seq<char> },
    TypeRequest { ntype: NodeType },
    UnitTest { action: UnitTestAction, extra: Seq<char> },
    RegisterGtn { register: bool, service: NodeService, name: Seq<char> },
    Geosub { name: Seq<char> },
    Empty,
}

impl View for RequestFrame {
    type V = RequestFrameView;

    open spec fn view(&self) -> RequestFrameView {
        match *self {
            RequestFrame::Register { register, ntype, service, name } => RequestFrameView::Register {
                register,
                ntype,
                service,
                name: name@,
            },
            RequestFrame::Resolution { query } => RequestFrameView::Resolution { query: query@ },
            RequestFrame::StateUpdate { state, name } => RequestFrameView::StateUpdate {
                state,
                name: name@,
            },
            RequestFrame::NodeRequest { key } => RequestFrameView::NodeRequest { key: key@ },
            RequestFrame::TypeRequest { ntype } => RequestFrameView::TypeRequest { ntype },
            RequestFrame::UnitTest { action, extra } => RequestFrameView::UnitTest {
                action,
                extra: extra@,
            },
            RequestFrame::RegisterGtn { register, service, name } => RequestFrameView::RegisterGtn {
                register,
                service,
                name: name@,
            },
            RequestFrame::Geosub { name } => RequestFrameView::Geosub { name: name@ },
            RequestFrame::Empty => RequestFrameView::Empty,
        }
    }
}

/// The shapes that the content of an answer can have.
#[derive(Clone, Copy, Debug, PartialEq, Eq, Structural)]
pub enum FrameKind {
    Response,
    NodeInfo,
    NodeStatus,
    Network,
}

impl FrameKind {
    /// The name shown for the shape.
    pub open spec fn label(self) -> Seq<char> {
        match self {
            FrameKind::Response => "FrameResponse"@,
            FrameKind::NodeInfo => "FrameNodeInfo"@,
            FrameKind::NodeStatus => "FrameNodeStatus"@,
            FrameKind::Network => "FrameNetwork"@,
        }
    }

    /// The name shown for the shape.
    pub fn name(&self) -> (s: &'static str)
        ensures
            s@ == self.label(),
    {
        match self {
            FrameKind::Response => "FrameResponse",
            FrameKind::NodeInfo => "FrameNodeInfo",
            FrameKind::NodeStatus => "FrameNodeStatus",
            FrameKind::Network => "FrameNetwork",
        }
    }
}

/// What the header of an envelope records.
#[derive(Clone, Copy, Debug, PartialEq, Eq, Structural)]
pub struct PacketHeader {
    pub msg_type: MessageType,
    /// The length of the content in bytes.
    pub msg_size: u32,
}

/// An answer that carries a result code and nothing else.
#[derive(Clone, Debug)]
pub struct FrameResponse {
    pub code: ResultCode,
}

/// An answer that describes a node.
#[derive(Clone, Debug)]
pub struct FrameNodeInfo {
    pub code: ResultCode,
    /// The node's types, as bits.
    pub ntype: u8,
    pub service: NodeService,
    pub address: [u8; 4],
    pub name: String,
}

/// An answer that gives the state of a node.
#[derive(Clone, Debug)]
pub struct FrameNodeStatus {
    pub code: ResultCode,
    pub status: NodeState,
}

/// An answer that lists nodes, as text with a semicolon after each.
#[derive(Clone, Debug)]
pub struct FrameNetwork {
    pub list: Vec<u8>,
}

/// An answer with a result code, as contracts see it.
pub struct FrameResponseView {
    pub code: ResultCodeView,
}

/// The description of a node, as contracts see it.
pub struct FrameNodeInfoView {
    pub code: ResultCodeView,
    pub ntype: u8,
    pub service: NodeService,
    pub address: [u8; 4],
    pub name: Seq<char>,
}

/// The state of a node, as contracts see it.
pub struct FrameNodeStatusView {
    pub code: ResultCodeView,
    pub status: NodeState,
}

/// A list of nodes, as contracts see it.
pub struct FrameNetworkView {
    pub list: Seq<u8>,
}

impl View for FrameResponse {
    type V = FrameResponseView;

    open spec fn view(&self) -> FrameResponseView {
        FrameResponseView { code: self.code@ }
    }
}

impl View for FrameNodeInfo {
    type V = FrameNodeInfoView;

    open spec fn view(&self) -> FrameNodeInfoView {
        FrameNodeInfoView {
            code: self.code@,
            ntype: self.ntype,
            service: self.service,
            address: self.address,
            name: self.name@,
        }
    }
}

impl View for FrameNodeStatus {
    type V = FrameNodeStatusView;

    open spec fn view(&self) -> FrameNodeStatusView {
        FrameNodeStatusView { code: self.code@, status: self.status }
    }
}

impl View for FrameNetwork {
    type V = FrameNetworkView;

    open spec fn view(&self) -> FrameNetworkView {
        FrameNetworkView { list: self.list@ }
    }
}

/// A decoded answer of any shape.
#[derive(Clone, Debug)]
pub enum ResponseFrame {
    Response(FrameResponse),
    NodeInfo(FrameNodeInfo),
    NodeStatus(FrameNodeStatus),
    Network(FrameNetwork),
}

/// A decoded answer of any shape, as contracts see it.
pub enum ResponseFrameView {
    Response(FrameResponseView),
    NodeInfo(FrameNodeInfoView),
    NodeStatus(FrameNodeStatusView),
    Network(FrameNetworkView),
}

impl View for ResponseFrame {
    type V = ResponseFrameView;

    open spec fn view(&self) -> ResponseFrameView {
        match *self {
            ResponseFrame::Response(f) => ResponseFrameView::Response(f@),
            ResponseFrame::NodeInfo(f) => ResponseFrameView::NodeInfo(f@),
            ResponseFrame::NodeStatus(f) => ResponseFrameView::NodeStatus(f@),
            ResponseFrame::Network(f) => ResponseFrameView::Network(f@),
        }
    }
}

} // verus!
