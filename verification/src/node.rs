//! Node categories for the tree-construction stage that consumes the token
//! stream.  Tree construction itself is out of scope; these types name what
//! its nodes would be.

use vstd::prelude::*;

verus! {

/// The category of a DOM node.
#[derive(Debug, Clone, Copy, PartialEq, Eq, Structural)]
pub enum NodeType {
    ElementNode,
    TextNode,
    CDataSectionNode,
    ProcessingInstructionNode,
    CommentNode,
    DocumentNode,
    DocumentTypeNode,
    DocumentFragmentNode,
}

/// The interface name of a DOM node.
#[derive(Debug, Clone, Copy, PartialEq, Eq, Structural)]
pub enum NodeName {
    Element,
    Attr,
    Text,
    CDataSection,
    ProcessingInstruction,
    Comment,
    Document,
    DocumentType,
    DocumentFragment,
}

/// A DOM node as tree construction would materialize it: a category and an
/// interface name.
#[derive(Debug, Clone, Copy, PartialEq, Eq, Structural)]
pub struct Node {
    ty: NodeType,
    name: NodeName,
}

impl Node {
    /// The node's category, for contracts.
    pub closed spec fn spec_node_type(&self) -> NodeType {
        self.ty
    }

    /// The node's interface name, for contracts.
    pub closed spec fn spec_node_name(&self) -> NodeName {
        self.name
    }

    /// A node of the given category and interface name.
    pub fn new(ty: NodeType, name: NodeName) -> (n: Node)
        ensures
            n.spec_node_type() == ty,
            n.spec_node_name() == name,
    {
        Node { ty, name }
    }

    pub fn node_type(&self) -> (t: NodeType)
        ensures
            t == self.spec_node_type(),
    {
        self.ty
    }

    pub fn node_name(&self) -> (n: NodeName)
        ensures
            n == self.spec_node_name(),
    {
        self.name
    }
}

} // verus!
