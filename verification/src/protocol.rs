//! What the client has to know of the wire format: the numbers that the
//! protocol's serialiser fixes and that the decisions here depend on.

use vstd::prelude::*;

verus! {

/// The constants of the wire format, as the serialiser in use defines them.
#[derive(Clone, Debug)]
pub struct Protocol {
    /// The size in bytes of the smallest envelope.
    pub lower_bound: usize,
    /// The leading bytes that stand for a message type.
    pub message_codes: Vec<u8>,
    /// The node-type value that stands for "undefined".
    pub type_undefined: u8,
    /// The node-type bit of an organisation node.
    pub type_org: u8,
    /// The node-type bit of a root node.
    pub type_root: u8,
}

/// The types that a node has: none that is known, or any of organisation
/// and root.
#[derive(Clone, Copy, Debug, PartialEq, Eq, Structural)]
pub enum NodeTypes {
    Undefined,
    Flags { org: bool, root: bool },
}

impl NodeTypes {
    /// The types as words, each followed by a space.
    pub open spec fn text(self) -> Seq<char> {
        match self {
            NodeTypes::Undefined => "undefined"@,
            NodeTypes::Flags { org, root } => (if org {
                "org "@
            } else {
                Seq::empty()
            }) + (if root {
                "root "@
            } else {
                Seq::empty()
            }),
        }
    }
}

impl Protocol {
    /// The types that the bits of `mask` stand for.
    pub open spec fn types_of(&self, mask: u8) -> NodeTypes {
        if mask == self.type_undefined {
            NodeTypes::Undefined
        } else {
            NodeTypes::Flags { org: mask & self.type_org > 0, root: mask & self.type_root > 0 }
        }
    }

    /// Reads the types of a node from their bits.
    pub fn node_types(&self, mask: u8) -> (types: NodeTypes)
        ensures
            types == self.types_of(mask),
    {
        if mask == self.type_undefined {
            NodeTypes::Undefined
        } else {
            NodeTypes::Flags { org: mask & self.type_org > 0, root: mask & self.type_root > 0 }
        }
    }

    /// Whether `byte` stands for a message type.
    pub open spec fn recognises(&self, byte: u8) -> bool {
        self.message_codes@.contains(byte)
    }

    /// The message code that a drawn number selects: the codes in turn, as
    /// the number grows.
    pub open spec fn code_for(&self, draw: usize) -> Option<u8> {
        if self.message_codes@.len() == 0 {
            None
        } else {
            Some(self.message_codes@[draw as int % self.message_codes@.len() as int])
        }
    }

    /// Picks a message code by a drawn number, if the protocol has any.
    pub fn pick_code(&self, draw: usize) -> (code: Option<u8>)
        ensures
            code == self.code_for(draw),
            code is Some <==> self.message_codes@.len() > 0,
            code is Some ==> self.recognises(code->0),
    {
        let n: usize = self.message_codes.len();
        if n == 0 {
            None
        } else {
            Some(self.message_codes[draw % n])
        }
    }

    /// Whether `byte` stands for a message type.
    pub fn is_message_code(&self, byte: u8) -> (r: bool)
        ensures
            r == self.recognises(byte),
    {
        let mut i: usize = 0;
        while i < self.message_codes.len()
            invariant
                i <= self.message_codes@.len(),
                forall|j: int| 0 <= j < i ==> self.message_codes@[j] != byte,
            decreases self.message_codes@.len() - i,
        {
            if self.message_codes[i] == byte {
                return true;
            }
            i += 1;
        }
        false
    }
}

} // verus!
