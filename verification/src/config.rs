//! The configuration of one run: what to forge, where to send it and how
//! to report what comes back.

use vstd::prelude::*;
use crate::enums::{MessageType, NodeService, NodeState, NodeType, UnitTestAction};

verus! {

/// Everything a run is told on the command line.
#[derive(Clone, Debug)]
pub struct Config {
    pub msg_type: MessageType,
    pub msg_target: String,
    pub node_register: bool,
    pub node_type: NodeType,
    pub node_state: NodeState,
    pub node_service: NodeService,
    pub text_content: String,
    pub test_action: UnitTestAction,
    /// Reports are written as tagged single lines for a test harness.
    pub unit_test: bool,
    pub fuzzy: bool,
    pub fuzzy_loop: u32,
    pub fuzzy_valid_msg: bool,
    pub port: u32,
    pub http: bool,
    pub http_host: String,
    pub http_res: String,
}

/// A configuration with its texts as sequences of characters.
pub struct ConfigView {
    pub msg_type: MessageType,
    pub msg_target: Seq<char>,
    pub node_register: bool,
    pub node_type: NodeType,
    pub node_state: NodeState,
    pub node_service: NodeService,
    pub text_content: Seq<char>,
    pub test_action: UnitTestAction,
    pub unit_test: bool,
    pub fuzzy: bool,
    pub fuzzy_loop: u32,
    pub fuzzy_valid_msg: bool,
    pub port: u32,
    pub http: bool,
    pub http_host: Seq<char>,
    pub http_res: Seq<char>,
}

impl View for Config {
    type V = ConfigView;

    open spec fn view(&self) -> ConfigView {
        ConfigView {
            msg_type: self.msg_type,
            msg_target: self.msg_target@,
            node_register: self.node_register,
            node_type: self.node_type,
            node_state: self.node_state,
            node_service: self.node_service,
            text_content: self.text_content@,
            test_action: self.test_action,
            unit_test: self.unit_test,
            fuzzy: self.fuzzy,
            fuzzy_loop: self.fuzzy_loop,
            fuzzy_valid_msg: self.fuzzy_valid_msg,
            port: self.port,
            http: self.http,
            http_host: self.http_host@,
            http_res: self.http_res@,
        }
    }
}

impl ConfigView {
    /// The configuration of a run that was told nothing: a registration of
    /// an enabled organisation node that speaks DVSP, sent once over UDP
    /// from port 57000 to a node on this machine, reported in prose.
    pub open spec fn initial() -> ConfigView {
        ConfigView {
            msg_type: MessageType::GsnRegistration,
            msg_target: "127.0.0.1:55301"@,
            node_register: true,
            node_type: NodeType::Org,
            node_state: NodeState::Enabled,
            node_service: NodeService::Dvsp,
            text_content: Seq::empty(),
            test_action: UnitTestAction::Undefined,
            unit_test: false,
            fuzzy: false,
            fuzzy_loop: 1,
            fuzzy_valid_msg: false,
            port: 57000,
            http: false,
            http_host: Seq::empty(),
            http_res: Seq::empty(),
        }
    }
}

impl Config {
    /// The configuration of a run that was told nothing.
    pub fn new() -> (cfg: Config)
        ensures
            cfg@ == ConfigView::initial(),
    {
        Config {
            msg_type: MessageType::GsnRegistration,
            msg_target: String::from_str("127.0.0.1:55301"),
            node_register: true,
            node_type: NodeType::Org,
            node_state: NodeState::Enabled,
            node_service: NodeService::Dvsp,
            text_content: String::new(),
            test_action: UnitTestAction::Undefined,
            unit_test: false,
            fuzzy: false,
            fuzzy_loop: 1,
            fuzzy_valid_msg: false,
            port: 57000,
            http: false,
            http_host: String::new(),
            http_res: String::new(),
        }
    }
}

} // verus!
