//! The tree converter: one engine report in, one owned document tree out.
//!
//! [`convert_spec`] is the mathematical definition of the conversion, a total
//! function on engine models; [`convert_tree`] is the executable converter,
//! proved to return exactly that. Dispatch is on the engine's kind tag;
//! children are converted left to right, depth first, and a kind tag with no
//! mapping stops the whole conversion with
//! [`ParseError::UnsupportedKind`] — no partial tree is returned.

use crate::ast::Node;
use crate::ast::NodeModel;
use crate::ast::node_children;
use crate::ast::node_seq_view;
use crate::ast::node_seq_wf;
use crate::ast::node_wf;
use crate::engine::EngineModel;
use crate::engine::EngineNode;
use crate::engine::KIND_ATX_HEADER;
use crate::engine::KIND_BLOCK_QUOTE;
use crate::engine::KIND_DOCUMENT;
use crate::engine::KIND_EMPHASIS;
use crate::engine::KIND_FENCED_CODE;
use crate::engine::KIND_HARD_BREAK;
use crate::engine::KIND_HTML_BLOCK;
use crate::engine::KIND_IMAGE;
use crate::engine::KIND_INDENTED_CODE;
use crate::engine::KIND_INLINE_CODE;
use crate::engine::KIND_INLINE_HTML;
use crate::engine::KIND_LINK;
use crate::engine::KIND_LIST;
use crate::engine::KIND_LIST_ITEM;
use crate::engine::KIND_PARAGRAPH;
use crate::engine::KIND_REFERENCE_DEF;
use crate::engine::KIND_SETEXT_HEADER;
use crate::engine::KIND_SOFT_BREAK;
use crate::engine::KIND_STRONG;
use crate::engine::KIND_TEXT;
use crate::engine::KIND_THEMATIC_BREAK;
use crate::engine::LIST_ORDERED;
use crate::engine::engine_seq_view;
use crate::engine::engine_seq_wf;
use crate::engine::engine_wf;
use crate::parser::ParseError;
use vstd::prelude::*;

verus! {

/// Whether this library maps the given engine kind tag to a node variant.
pub open spec fn kind_mapped(k: u32) -> bool {
    ||| k == KIND_DOCUMENT
    ||| k == KIND_BLOCK_QUOTE
    ||| k == KIND_LIST
    ||| k == KIND_LIST_ITEM
    ||| k == KIND_FENCED_CODE
    ||| k == KIND_INDENTED_CODE
    ||| k == KIND_HTML_BLOCK
    ||| k == KIND_PARAGRAPH
    ||| k == KIND_ATX_HEADER
    ||| k == KIND_SETEXT_HEADER
    ||| k == KIND_THEMATIC_BREAK
    ||| k == KIND_REFERENCE_DEF
    ||| k == KIND_TEXT
    ||| k == KIND_SOFT_BREAK
    ||| k == KIND_HARD_BREAK
    ||| k == KIND_INLINE_CODE
    ||| k == KIND_INLINE_HTML
    ||| k == KIND_EMPHASIS
    ||| k == KIND_STRONG
    ||| k == KIND_LINK
    ||| k == KIND_IMAGE
}

/// Kinds the conversion maps to a container variant: only their children are
/// visited.
pub open spec fn container_kind(k: u32) -> bool {
    ||| k == KIND_DOCUMENT
    ||| k == KIND_BLOCK_QUOTE
    ||| k == KIND_LIST
    ||| k == KIND_LIST_ITEM
    ||| k == KIND_PARAGRAPH
    ||| k == KIND_ATX_HEADER
    ||| k == KIND_SETEXT_HEADER
    ||| k == KIND_EMPHASIS
    ||| k == KIND_STRONG
    ||| k == KIND_LINK
    ||| k == KIND_IMAGE
}

/// Every kind tag the conversion visits has a mapping: the node's own tag,
/// and, below a container, the tags of its children.
pub open spec fn all_kinds_mapped(e: EngineModel) -> bool
    decreases e,
{
    &&& kind_mapped(e.kind)
    &&& (container_kind(e.kind) ==> (forall|i: int|
        0 <= i < e.children.len() ==> all_kinds_mapped(#[trigger] e.children[i])))
}

/// The conversion, defined on models. `Err(t)` carries the first kind tag in
/// document order (depth first, pre-order) that has no mapping.
pub open spec fn convert_spec(e: EngineModel) -> Result<NodeModel, u32>
    decreases e, 0int,
{
    if e.kind == KIND_DOCUMENT {
        match convert_children_spec(e.children, 0) {
            Ok(cs) => Ok(NodeModel::Document(cs)),
            Err(t) => Err(t),
        }
    } else if e.kind == KIND_ATX_HEADER {
        match convert_children_spec(e.children, 0) {
            Ok(cs) => Ok(NodeModel::AtxHeader(e.header_level, cs)),
            Err(t) => Err(t),
        }
    } else if e.kind == KIND_SETEXT_HEADER {
        match convert_children_spec(e.children, 0) {
            Ok(cs) => Ok(NodeModel::SetextHeader(e.header_level, cs)),
            Err(t) => Err(t),
        }
    } else if e.kind == KIND_LIST {
        match convert_children_spec(e.children, 0) {
            Ok(items) => if e.list_type == LIST_ORDERED {
                Ok(NodeModel::OrderedList { tight: e.list_tight, start: e.list_start, items })
            } else {
                Ok(NodeModel::BulletList { tight: e.list_tight, items })
            },
            Err(t) => Err(t),
        }
    } else if e.kind == KIND_LIST_ITEM {
        match convert_children_spec(e.children, 0) {
            Ok(cs) => Ok(NodeModel::ListItem(cs)),
            Err(t) => Err(t),
        }
    } else if e.kind == KIND_PARAGRAPH {
        match convert_children_spec(e.children, 0) {
            Ok(cs) => Ok(NodeModel::Paragraph(cs)),
            Err(t) => Err(t),
        }
    } else if e.kind == KIND_BLOCK_QUOTE {
        match convert_children_spec(e.children, 0) {
            Ok(cs) => Ok(NodeModel::BlockQuote(cs)),
            Err(t) => Err(t),
        }
    } else if e.kind == KIND_EMPHASIS {
        match convert_children_spec(e.children, 0) {
            Ok(cs) => Ok(NodeModel::Emphasis(cs)),
            Err(t) => Err(t),
        }
    } else if e.kind == KIND_STRONG {
        match convert_children_spec(e.children, 0) {
            Ok(cs) => Ok(NodeModel::Strong(cs)),
            Err(t) => Err(t),
        }
    } else if e.kind == KIND_LINK {
        match convert_children_spec(e.children, 0) {
            Ok(cs) => Ok(NodeModel::Link { url: e.url, title: e.title, children: cs }),
            Err(t) => Err(t),
        }
    } else if e.kind == KIND_IMAGE {
        match convert_children_spec(e.children, 0) {
            Ok(cs) => Ok(NodeModel::Image { url: e.url, title: e.title, children: cs }),
            Err(t) => Err(t),
        }
    } else if e.kind == KIND_TEXT {
        Ok(NodeModel::Text(e.literal))
    } else if e.kind == KIND_INLINE_CODE {
        Ok(NodeModel::InlineCode(e.literal))
    } else if e.kind == KIND_INLINE_HTML {
        Ok(NodeModel::InlineHtml(e.literal))
    } else if e.kind == KIND_HTML_BLOCK {
        Ok(NodeModel::HtmlBlock(e.literal))
    } else if e.kind == KIND_INDENTED_CODE {
        Ok(NodeModel::IndentedCode(e.literal))
    } else if e.kind == KIND_FENCED_CODE {
        Ok(NodeModel::FencedCode(e.fence_info, e.literal))
    } else if e.kind == KIND_THEMATIC_BREAK {
        Ok(NodeModel::ThematicBreak)
    } else if e.kind == KIND_REFERENCE_DEF {
        Ok(NodeModel::ReferenceDefinition)
    } else if e.kind == KIND_SOFT_BREAK {
        Ok(NodeModel::SoftLineBreak)
    } else if e.kind == KIND_HARD_BREAK {
        Ok(NodeModel::HardLineBreak)
    } else {
        Err(e.kind)
    }
}

/// The conversion of the nodes `s[from..]`, left to right; the first failure
/// wins.
pub open spec fn convert_children_spec(s: Seq<EngineModel>, from: int) -> Result<
    Seq<NodeModel>,
    u32,
>
    decreases s, s.len() - from,
{
    if from < 0 || from >= s.len() {
        Ok(Seq::empty())
    } else {
        match convert_spec(s[from]) {
            Ok(n) => match convert_children_spec(s, from + 1) {
                Ok(rest) => Ok(seq![n] + rest),
                Err(t) => Err(t),
            },
            Err(t) => Err(t),
        }
    }
}

/// What a whole parse returns for the engine report `e`: the converted tree,
/// or the unmapped kind tag as an [`ParseError::UnsupportedKind`].
pub open spec fn document_model(e: EngineModel) -> Result<NodeModel, ParseError> {
    match convert_spec(e) {
        Ok(m) => Ok(m),
        Err(t) => Err(ParseError::UnsupportedKind(t)),
    }
}

/// The model of an executable conversion result.
pub open spec fn result_model(r: Result<Node, ParseError>) -> Result<NodeModel, ParseError> {
    match r {
        Ok(n) => Ok(n@),
        Err(x) => Err(x),
    }
}

/// Copies an optional text attribute.
fn clone_opt_text(o: &Option<String>) -> (r: Option<String>)
    ensures
        r == *o,
{
    match o {
        Option::Some(s) => Option::Some(s.clone()),
        Option::None => Option::None,
    }
}

/// Converts one engine report into an owned document tree: exactly
/// [`convert_spec`] on the report's model. On success the tree is well
/// formed; on failure the error names the first unmapped kind tag, and no
/// partial tree is returned.
pub fn convert_tree(e: &EngineNode) -> (r: Result<Node, ParseError>)
    requires
        engine_wf(e@),
    ensures
        result_model(r) == document_model(e@),
        (r matches Ok(n) ==> node_wf(n@)),
    decreases e@, 0int,
{
    proof {
        let ims = engine_seq_view(e.children@);
        assert(e@.children == ims);
        assert forall|i: int| 0 <= i < ims.len() implies engine_wf(#[trigger] ims[i]) by {
            assert(engine_wf(e@.children[i]));
        }
        lemma_conversion_wf(e@);
    }
    if e.kind == KIND_DOCUMENT {
        match convert_children(&e.children, 0) {
            Ok(ns) => Ok(Node::Document(ns)),
            Err(t) => Err(t),
        }
    } else if e.kind == KIND_ATX_HEADER {
        match convert_children(&e.children, 0) {
            Ok(ns) => Ok(Node::AtxHeader(e.header_level, ns)),
            Err(t) => Err(t),
        }
    } else if e.kind == KIND_SETEXT_HEADER {
        match convert_children(&e.children, 0) {
            Ok(ns) => Ok(Node::SetextHeader(e.header_level, ns)),
            Err(t) => Err(t),
        }
    } else if e.kind == KIND_LIST {
        match convert_children(&e.children, 0) {
            Ok(items) => {
                if e.list_type == LIST_ORDERED {
                    Ok(Node::OrderedList { tight: e.list_tight, start: e.list_start, items })
                } else {
                    Ok(Node::BulletList { tight: e.list_tight, items })
                }
            },
            Err(t) => Err(t),
        }
    } else if e.kind == KIND_LIST_ITEM {
        match convert_children(&e.children, 0) {
            Ok(ns) => Ok(Node::ListItem(ns)),
            Err(t) => Err(t),
        }
    } else if e.kind == KIND_PARAGRAPH {
        match convert_children(&e.children, 0) {
            Ok(ns) => Ok(Node::Paragraph(ns)),
            Err(t) => Err(t),
        }
    } else if e.kind == KIND_BLOCK_QUOTE {
        match convert_children(&e.children, 0) {
            Ok(ns) => Ok(Node::BlockQuote(ns)),
            Err(t) => Err(t),
        }
    } else if e.kind == KIND_EMPHASIS {
        match convert_children(&e.children, 0) {
            Ok(ns) => Ok(Node::Emphasis(ns)),
            Err(t) => Err(t),
        }
    } else if e.kind == KIND_STRONG {
        match convert_children(&e.children, 0) {
            Ok(ns) => Ok(Node::Strong(ns)),
            Err(t) => Err(t),
        }
    } else if e.kind == KIND_LINK || e.kind == KIND_IMAGE {
        match convert_children(&e.children, 0) {
            Ok(children) => {
                let url = clone_opt_text(&e.url);
                let title = clone_opt_text(&e.title);
                if e.kind == KIND_LINK {
                    Ok(Node::Link { url, title, children })
                } else {
                    Ok(Node::Image { url, title, children })
                }
            },
            Err(t) => Err(t),
        }
    } else if e.kind == KIND_TEXT {
        Ok(Node::Text(e.literal.clone()))
    } else if e.kind == KIND_INLINE_CODE {
        Ok(Node::InlineCode(e.literal.clone()))
    } else if e.kind == KIND_INLINE_HTML {
        Ok(Node::InlineHtml(e.literal.clone()))
    } else if e.kind == KIND_HTML_BLOCK {
        Ok(Node::HtmlBlock(e.literal.clone()))
    } else if e.kind == KIND_INDENTED_CODE {
        Ok(Node::IndentedCode(e.literal.clone()))
    } else if e.kind == KIND_FENCED_CODE {
        Ok(Node::FencedCode(e.fence_info.clone(), e.literal.clone()))
    } else if e.kind == KIND_THEMATIC_BREAK {
        Ok(Node::ThematicBreak)
    } else if e.kind == KIND_REFERENCE_DEF {
        Ok(Node::ReferenceDefinition)
    } else if e.kind == KIND_SOFT_BREAK {
        Ok(Node::SoftLineBreak)
    } else if e.kind == KIND_HARD_BREAK {
        Ok(Node::HardLineBreak)
    } else {
        Err(ParseError::UnsupportedKind(e.kind))
    }
}

/// Converts the children `v[from..]` in sibling order: exactly
/// [`convert_children_spec`] on their models.
fn convert_children(v: &Vec<EngineNode>, from: usize) -> (r: Result<Vec<Node>, ParseError>)
    requires
        from <= v@.len(),
        engine_seq_wf(engine_seq_view(v@)),
    ensures
        (convert_children_spec(engine_seq_view(v@), from as int) matches Ok(ms) ==> r matches Ok(
            ns,
        ) && node_seq_view(ns@) == ms),
        (convert_children_spec(engine_seq_view(v@), from as int) matches Err(t) ==> r
            == Err::<Vec<Node>, ParseError>(ParseError::UnsupportedKind(t))),
    decreases engine_seq_view(v@), v@.len() - from,
{
    let ghost ims = engine_seq_view(v@);
    if from == v.len() {
        let ns: Vec<Node> = Vec::new();
        proof {
            assert(node_seq_view(ns@) =~= Seq::<NodeModel>::empty());
        }
        Ok(ns)
    } else {
        proof {
            assert(ims[from as int] == v@[from as int]@);
            assert(engine_wf(v@[from as int]@));
        }
        match convert_tree(&v[from]) {
            Err(t) => Err(t),
            Ok(n) => {
                match convert_children(v, from + 1) {
                    Err(t) => Err(t),
                    Ok(rest) => {
                        let ghost rest_view = rest@;
                        let mut out = rest;
                        out.insert(0, n);
                        proof {
                            let ghost ms_rest = convert_children_spec(ims, from as int + 1)->Ok_0;
                            assert forall|i: int| 0 <= i < out@.len() implies node_seq_view(out@)[i]
                                == (seq![n@] + ms_rest)[i] by {
                                if i > 0 {
                                    assert(out@[i] == rest_view[i - 1]);
                                    assert(node_seq_view(rest_view)[i - 1] == ms_rest[i - 1]);
                                }
                            }
                            assert(node_seq_view(out@) =~= seq![n@] + ms_rest);
                        }
                        Ok(out)
                    },
                }
            },
        }
    }
}

/// A kind with no mapping is contained, never fatal: the conversion succeeds
/// exactly when every kind tag in the report has a mapping, and a failure
/// always names a tag that has none.
pub proof fn lemma_conversion_total(e: EngineModel)
    ensures
        convert_spec(e) is Ok <==> all_kinds_mapped(e),
        (convert_spec(e) matches Err(t) ==> !kind_mapped(t)),
    decreases e, 0int,
{
    lemma_conversion_children_total(e.children, 0);
    if kind_mapped(e.kind) && container_kind(e.kind) {
        if convert_children_spec(e.children, 0) is Ok {
            assert(convert_spec(e) is Ok);
            assert forall|i: int|
                0 <= i < e.children.len() implies all_kinds_mapped(#[trigger] e.children[i]) by {
                assert(all_kinds_mapped(e.children[i]));
            }
        } else {
            assert(convert_spec(e) is Err);
            assert(!all_kinds_mapped(e));
        }
    }
}

proof fn lemma_conversion_children_total(s: Seq<EngineModel>, from: int)
    requires
        0 <= from <= s.len(),
    ensures
        convert_children_spec(s, from) is Ok <==> (forall|i: int|
            from <= i < s.len() ==> #[trigger] all_kinds_mapped(s[i])),
        (convert_children_spec(s, from) matches Err(t) ==> !kind_mapped(t)),
    decreases s, s.len() - from,
{
    if from < s.len() {
        lemma_conversion_total(s[from]);
        lemma_conversion_children_total(s, from + 1);
    }
}

/// A conversion that succeeds on a well-formed engine report yields a
/// well-formed tree: every header level lies between 1 and 6.
pub proof fn lemma_conversion_wf(e: EngineModel)
    requires
        engine_wf(e),
    ensures
        (convert_spec(e) matches Ok(m) ==> node_wf(m)),
    decreases e, 0int,
{
    lemma_conversion_children_wf(e.children, 0);
    if convert_spec(e) is Ok {
        let m = convert_spec(e)->Ok_0;
        assert forall|i: int|
            0 <= i < node_children(m).len() implies node_wf(#[trigger] node_children(m)[i]) by {
            assert(node_wf(node_children(m)[i]));
        }
    }
}

proof fn lemma_conversion_children_wf(s: Seq<EngineModel>, from: int)
    requires
        0 <= from <= s.len(),
        engine_seq_wf(s),
    ensures
        (convert_children_spec(s, from) matches Ok(ms) ==> node_seq_wf(ms)),
    decreases s, s.len() - from,
{
    if from < s.len() {
        assert(engine_wf(s[from]));
        lemma_conversion_wf(s[from]);
        lemma_conversion_children_wf(s, from + 1);
        if convert_children_spec(s, from) is Ok {
            let ms = convert_children_spec(s, from)->Ok_0;
            let n = convert_spec(s[from])->Ok_0;
            let rest = convert_children_spec(s, from + 1)->Ok_0;
            assert forall|i: int| 0 <= i < ms.len() implies node_wf(#[trigger] ms[i]) by {
                if i == 0 {
                    assert(ms[i] == n);
                } else {
                    assert(ms[i] == rest[i - 1]);
                    assert(node_wf(rest[i - 1]));
                }
            }
        }
    }
}

/// Conversion preserves the sibling chain exactly: on success there are as
/// many converted children as engine children, and the child at each
/// position is the conversion of the engine child at that same position.
pub proof fn lemma_children_order_preserved(s: Seq<EngineModel>, from: int)
    requires
        0 <= from <= s.len(),
    ensures
        (convert_children_spec(s, from) matches Ok(ms) ==> {
            &&& ms.len() == s.len() - from
            &&& (forall|i: int|
                0 <= i < ms.len() ==> #[trigger] convert_spec(s[from + i]) is Ok)
            &&& (forall|i: int|
                0 <= i < ms.len() ==> ms[i] == #[trigger] convert_spec(s[from + i])->Ok_0)
        }),
    decreases s.len() - from,
{
    if from < s.len() {
        lemma_children_order_preserved(s, from + 1);
        if convert_children_spec(s, from) is Ok {
            let ms = convert_children_spec(s, from)->Ok_0;
            let rest = convert_children_spec(s, from + 1)->Ok_0;
            assert forall|i: int|
                0 <= i < ms.len() implies #[trigger] convert_spec(s[from + i]) is Ok && ms[i]
                == convert_spec(s[from + i])->Ok_0 by {
                if i > 0 {
                    assert(ms[i] == rest[i - 1]);
                    assert(convert_spec(s[from + 1 + (i - 1)]) is Ok);
                    assert(rest[i - 1] == convert_spec(s[from + 1 + (i - 1)])->Ok_0);
                    assert(from + 1 + (i - 1) == from + i);
                }
            }
        }
    }
}

/// The converter has no hidden state: two conversion results for the same
/// engine report are structurally equal (their models coincide).
pub proof fn lemma_conversion_deterministic(
    e: EngineNode,
    r1: Result<Node, ParseError>,
    r2: Result<Node, ParseError>,
)
    requires
        result_model(r1) == document_model(e@),
        result_model(r2) == document_model(e@),
    ensures
        result_model(r1) == result_model(r2),
{
}

} // verus!
