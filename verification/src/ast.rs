//! The owned, immutable document tree.
//!
//! [`Node`] is a closed set of variants, each either a container (an ordered
//! sequence of child nodes) or a leaf (an owned text payload, or nothing).
//! A `Node` owns all of its data: once built it holds no reference into
//! engine-owned memory and is never mutated.

use crate::engine::opt_text_view;
use vstd::prelude::*;

verus! {

/// One node of the document tree.
#[derive(Debug, PartialEq, Eq)]
pub enum Node {
    /// The root: the whole document.
    Document(Vec<Node>),
    /// A block quote.
    BlockQuote(Vec<Node>),
    /// A bullet list; `tight` when no blank line separated any two items.
    BulletList { tight: bool, items: Vec<Node> },
    /// An ordered list; `start` is the first numeral.
    OrderedList { tight: bool, start: usize, items: Vec<Node> },
    /// One list item, with its full ordered sequence of block children.
    ListItem(Vec<Node>),
    /// A paragraph of inline content.
    Paragraph(Vec<Node>),
    /// An ATX (`#`-style) header: level between 1 and 6, inline content.
    AtxHeader(usize, Vec<Node>),
    /// A setext (underlined) header: level between 1 and 6, inline content.
    SetextHeader(usize, Vec<Node>),
    /// Emphasis around inline content.
    Emphasis(Vec<Node>),
    /// Strong emphasis around inline content.
    Strong(Vec<Node>),
    /// A link: optional destination, optional title, inline link text.
    Link { url: Option<String>, title: Option<String>, children: Vec<Node> },
    /// An image: optional destination, optional title, inline description.
    Image { url: Option<String>, title: Option<String>, children: Vec<Node> },
    /// An indented code block: raw text.
    IndentedCode(String),
    /// A fenced code block: info string (possibly empty), then raw text.
    FencedCode(String, String),
    /// A raw HTML block.
    HtmlBlock(String),
    /// Inline raw HTML.
    InlineHtml(String),
    /// A plain text run.
    Text(String),
    /// Inline code.
    InlineCode(String),
    /// A thematic break (horizontal rule).
    ThematicBreak,
    /// A link reference definition (no payload is kept).
    ReferenceDefinition,
    /// A soft line break.
    SoftLineBreak,
    /// A hard line break.
    HardLineBreak,
}

/// The mathematical value of a [`Node`]: the same tree over `Seq`, `nat`
/// and sequences of characters.
#[verifier::ext_equal]
pub enum NodeModel {
    Document(Seq<NodeModel>),
    BlockQuote(Seq<NodeModel>),
    BulletList { tight: bool, items: Seq<NodeModel> },
    OrderedList { tight: bool, start: nat, items: Seq<NodeModel> },
    ListItem(Seq<NodeModel>),
    Paragraph(Seq<NodeModel>),
    AtxHeader(nat, Seq<NodeModel>),
    SetextHeader(nat, Seq<NodeModel>),
    Emphasis(Seq<NodeModel>),
    Strong(Seq<NodeModel>),
    Link { url: Option<Seq<char>>, title: Option<Seq<char>>, children: Seq<NodeModel> },
    Image { url: Option<Seq<char>>, title: Option<Seq<char>>, children: Seq<NodeModel> },
    IndentedCode(Seq<char>),
    FencedCode(Seq<char>, Seq<char>),
    HtmlBlock(Seq<char>),
    InlineHtml(Seq<char>),
    Text(Seq<char>),
    InlineCode(Seq<char>),
    ThematicBreak,
    ReferenceDefinition,
    SoftLineBreak,
    HardLineBreak,
}

/// The models of a sequence of nodes, elementwise.
pub open spec fn node_seq_view(s: Seq<Node>) -> Seq<NodeModel>
    decreases s,
{
    Seq::new(
        s.len(),
        |i: int|
            if 0 <= i < s.len() {
                node_view(s[i])
            } else {
                arbitrary()
            },
    )
}

/// The model of one node.
pub open spec fn node_view(n: Node) -> NodeModel
    decreases n,
{
    match n {
        Node::Document(c) => NodeModel::Document(node_seq_view(c@)),
        Node::BlockQuote(c) => NodeModel::BlockQuote(node_seq_view(c@)),
        Node::BulletList { tight, items } => NodeModel::BulletList {
            tight,
            items: node_seq_view(items@),
        },
        Node::OrderedList { tight, start, items } => NodeModel::OrderedList {
            tight,
            start: start as nat,
            items: node_seq_view(items@),
        },
        Node::ListItem(c) => NodeModel::ListItem(node_seq_view(c@)),
        Node::Paragraph(c) => NodeModel::Paragraph(node_seq_view(c@)),
        Node::AtxHeader(level, c) => NodeModel::AtxHeader(level as nat, node_seq_view(c@)),
        Node::SetextHeader(level, c) => NodeModel::SetextHeader(level as nat, node_seq_view(c@)),
        Node::Emphasis(c) => NodeModel::Emphasis(node_seq_view(c@)),
        Node::Strong(c) => NodeModel::Strong(node_seq_view(c@)),
        Node::Link { url, title, children } => NodeModel::Link {
            url: opt_text_view(url),
            title: opt_text_view(title),
            children: node_seq_view(children@),
        },
        Node::Image { url, title, children } => NodeModel::Image {
            url: opt_text_view(url),
            title: opt_text_view(title),
            children: node_seq_view(children@),
        },
        Node::IndentedCode(t) => NodeModel::IndentedCode(t@),
        Node::FencedCode(info, t) => NodeModel::FencedCode(info@, t@),
        Node::HtmlBlock(t) => NodeModel::HtmlBlock(t@),
        Node::InlineHtml(t) => NodeModel::InlineHtml(t@),
        Node::Text(t) => NodeModel::Text(t@),
        Node::InlineCode(t) => NodeModel::InlineCode(t@),
        Node::ThematicBreak => NodeModel::ThematicBreak,
        Node::ReferenceDefinition => NodeModel::ReferenceDefinition,
        Node::SoftLineBreak => NodeModel::SoftLineBreak,
        Node::HardLineBreak => NodeModel::HardLineBreak,
    }
}

impl View for Node {
    type V = NodeModel;

    open spec fn view(&self) -> NodeModel {
        node_view(*self)
    }
}

/// A document tree is well formed when every header level lies between
/// 1 and 6.
pub open spec fn node_wf(m: NodeModel) -> bool
    decreases m,
{
    &&& (m matches NodeModel::AtxHeader(level, _) ==> 1 <= level <= 6)
    &&& (m matches NodeModel::SetextHeader(level, _) ==> 1 <= level <= 6)
    &&& (forall|i: int|
        0 <= i < node_children(m).len() ==> node_wf(#[trigger] node_children(m)[i]))
}

/// Every node of the sequence is a well-formed tree.
pub open spec fn node_seq_wf(s: Seq<NodeModel>) -> bool {
    forall|i: int| 0 <= i < s.len() ==> #[trigger] node_wf(s[i])
}

/// The children a model node owns; leaves own none.
pub open spec fn node_children(m: NodeModel) -> Seq<NodeModel> {
    match m {
        NodeModel::Document(c) => c,
        NodeModel::BlockQuote(c) => c,
        NodeModel::BulletList { items, .. } => items,
        NodeModel::OrderedList { items, .. } => items,
        NodeModel::ListItem(c) => c,
        NodeModel::Paragraph(c) => c,
        NodeModel::AtxHeader(_, c) => c,
        NodeModel::SetextHeader(_, c) => c,
        NodeModel::Emphasis(c) => c,
        NodeModel::Strong(c) => c,
        NodeModel::Link { children, .. } => children,
        NodeModel::Image { children, .. } => children,
        _ => Seq::empty(),
    }
}

} // verus!
