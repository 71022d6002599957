//! The engine's report, held as plain data.
//!
//! The external parsing engine exposes its result as a tree of nodes, each
//! carrying a kind tag and a handful of per-kind attributes (list type,
//! tightness, start numeral, header level, string content, fence info, url,
//! title). [`EngineNode`] holds one such node — and, through `children`, its
//! whole subtree — as owned plain values, so that everything downstream of
//! the engine can be reasoned about. Whoever drives the engine copies each
//! reported node into an `EngineNode`; nothing here keeps a reference into
//! engine-owned memory.

use vstd::prelude::*;

verus! {

/// Kind tag: the whole document.
pub const KIND_DOCUMENT: u32 = 1;
/// Kind tag: a block quote.
pub const KIND_BLOCK_QUOTE: u32 = 2;
/// Kind tag: a list; `list_type` tells bullet from ordered.
pub const KIND_LIST: u32 = 3;
/// Kind tag: one item of a list.
pub const KIND_LIST_ITEM: u32 = 4;
/// Kind tag: a fenced code block; carries `fence_info` and `literal`.
pub const KIND_FENCED_CODE: u32 = 5;
/// Kind tag: an indented code block; carries `literal`.
pub const KIND_INDENTED_CODE: u32 = 6;
/// Kind tag: a raw HTML block; carries `literal`.
pub const KIND_HTML_BLOCK: u32 = 7;
/// Kind tag: a paragraph.
pub const KIND_PARAGRAPH: u32 = 8;
/// Kind tag: an ATX (`#`-style) header; carries `header_level`.
pub const KIND_ATX_HEADER: u32 = 9;
/// Kind tag: a setext (underlined) header; carries `header_level`.
pub const KIND_SETEXT_HEADER: u32 = 10;
/// Kind tag: a thematic break (horizontal rule).
pub const KIND_THEMATIC_BREAK: u32 = 11;
/// Kind tag: a link reference definition.
pub const KIND_REFERENCE_DEF: u32 = 12;
/// Kind tag: a plain text run; carries `literal`.
pub const KIND_TEXT: u32 = 13;
/// Kind tag: a soft line break.
pub const KIND_SOFT_BREAK: u32 = 14;
/// Kind tag: a hard line break.
pub const KIND_HARD_BREAK: u32 = 15;
/// Kind tag: inline code; carries `literal`.
pub const KIND_INLINE_CODE: u32 = 16;
/// Kind tag: inline raw HTML; carries `literal`.
pub const KIND_INLINE_HTML: u32 = 17;
/// Kind tag: emphasis.
pub const KIND_EMPHASIS: u32 = 18;
/// Kind tag: strong emphasis.
pub const KIND_STRONG: u32 = 19;
/// Kind tag: a link; carries `url` and `title`.
pub const KIND_LINK: u32 = 20;
/// Kind tag: an image; carries `url` and `title`.
pub const KIND_IMAGE: u32 = 21;

/// List type reported on nodes that are not lists.
pub const LIST_NONE: u32 = 0;
/// List type of a bullet list.
pub const LIST_BULLET: u32 = 1;
/// List type of an ordered list.
pub const LIST_ORDERED: u32 = 2;

/// One node of the engine's reported tree, as owned plain values.
///
/// Every attribute the engine exposes is present on every node; the engine
/// reports a default (zero, empty, or absent) for attributes that do not
/// apply to a node's kind. `children` holds the node's child nodes in the
/// engine's sibling order, which is document order.
#[derive(Debug, PartialEq, Eq)]
pub struct EngineNode {
    /// The engine's kind tag for this node.
    pub kind: u32,
    /// Bullet or ordered; meaningful only when `kind` is `KIND_LIST`.
    pub list_type: u32,
    /// Whether no blank line separated any two items; lists only.
    pub list_tight: bool,
    /// First numeral of an ordered list; lists only.
    pub list_start: usize,
    /// Header level; headers only.
    pub header_level: usize,
    /// String content of a leaf node (text, code, HTML).
    pub literal: String,
    /// Info string of a fenced code block (possibly empty).
    pub fence_info: String,
    /// Link or image destination; `None` when the engine reports none.
    pub url: Option<String>,
    /// Link or image title; `None` when the engine reports none.
    pub title: Option<String>,
    /// The node's children, left to right.
    pub children: Vec<EngineNode>,
}

/// The mathematical value of an [`EngineNode`]: the same tree over `Seq`,
/// `nat` and sequences of characters.
#[verifier::ext_equal]
pub struct EngineModel {
    pub kind: u32,
    pub list_type: u32,
    pub list_tight: bool,
    pub list_start: nat,
    pub header_level: nat,
    pub literal: Seq<char>,
    pub fence_info: Seq<char>,
    pub url: Option<Seq<char>>,
    pub title: Option<Seq<char>>,
    pub children: Seq<EngineModel>,
}

/// The text a node attribute holds, or `None` where the engine reported none.
pub open spec fn opt_text_view(o: Option<String>) -> Option<Seq<char>> {
    match o {
        Option::Some(s) => Option::Some(s@),
        Option::None => Option::None,
    }
}

/// The models of a sequence of engine nodes, elementwise.
pub open spec fn engine_seq_view(s: Seq<EngineNode>) -> Seq<EngineModel>
    decreases s,
{
    Seq::new(
        s.len(),
        |i: int|
            if 0 <= i < s.len() {
                engine_node_view(s[i])
            } else {
                arbitrary()
            },
    )
}

/// The model of one engine node: every attribute, and the children's models.
pub open spec fn engine_node_view(e: EngineNode) -> EngineModel
    decreases e,
{
    EngineModel {
        kind: e.kind,
        list_type: e.list_type,
        list_tight: e.list_tight,
        list_start: e.list_start as nat,
        header_level: e.header_level as nat,
        literal: e.literal@,
        fence_info: e.fence_info@,
        url: opt_text_view(e.url),
        title: opt_text_view(e.title),
        children: engine_seq_view(e.children@),
    }
}

impl View for EngineNode {
    type V = EngineModel;

    open spec fn view(&self) -> EngineModel {
        engine_node_view(*self)
    }
}

/// A report is well formed when it honours the engine's own contract:
/// a list node carries a bullet or ordered list type, and a header node a
/// level between 1 and 6.
pub open spec fn engine_wf(e: EngineModel) -> bool
    decreases e,
{
    &&& (e.kind == KIND_LIST ==> e.list_type == LIST_BULLET || e.list_type == LIST_ORDERED)
    &&& ((e.kind == KIND_ATX_HEADER || e.kind == KIND_SETEXT_HEADER) ==> 1 <= e.header_level <= 6)
    &&& (forall|i: int| 0 <= i < e.children.len() ==> engine_wf(#[trigger] e.children[i]))
}

/// Every node of the sequence is a well-formed report.
pub open spec fn engine_seq_wf(s: Seq<EngineModel>) -> bool {
    forall|i: int| 0 <= i < s.len() ==> #[trigger] engine_wf(s[i])
}

/// The model of a node of kind `kind` whose every attribute is the engine's
/// default: zero, empty, or absent.
pub open spec fn blank_model(kind: u32) -> EngineModel {
    EngineModel {
        kind,
        list_type: LIST_NONE,
        list_tight: false,
        list_start: 0,
        header_level: 0,
        literal: Seq::empty(),
        fence_info: Seq::empty(),
        url: None,
        title: None,
        children: Seq::empty(),
    }
}

impl EngineNode {
    /// A payload-free node: every attribute at its default.
    pub fn leaf(kind: u32) -> (e: EngineNode)
        ensures
            e@ == blank_model(kind),
    {
        let e = EngineNode {
            kind,
            list_type: LIST_NONE,
            list_tight: false,
            list_start: 0,
            header_level: 0,
            literal: String::new(),
            fence_info: String::new(),
            url: None,
            title: None,
            children: Vec::new(),
        };
        proof {
            let m = blank_model(kind);
            assert(e@.literal =~= m.literal);
            assert(e@.fence_info =~= m.fence_info);
            assert(e@.children =~= m.children);
            assert(e@ =~~= m);
        }
        e
    }

    /// A leaf with string content (text, code, HTML).
    pub fn text_leaf(kind: u32, literal: String) -> (e: EngineNode)
        ensures
            e@ == (EngineModel { literal: literal@, ..blank_model(kind) }),
    {
        let ghost m = EngineModel { literal: literal@, ..blank_model(kind) };
        let e = EngineNode {
            kind,
            list_type: LIST_NONE,
            list_tight: false,
            list_start: 0,
            header_level: 0,
            literal,
            fence_info: String::new(),
            url: None,
            title: None,
            children: Vec::new(),
        };
        proof {
            assert(e@.literal =~= m.literal);
            assert(e@.fence_info =~= m.fence_info);
            assert(e@.children =~= m.children);
            assert(e@ =~~= m);
        }
        e
    }

    /// A fenced code block: info string, then the block's raw text.
    pub fn fenced(fence_info: String, literal: String) -> (e: EngineNode)
        ensures
            e@ == (EngineModel {
                literal: literal@,
                fence_info: fence_info@,
                ..blank_model(KIND_FENCED_CODE)
            }),
    {
        let ghost m = EngineModel {
            literal: literal@,
            fence_info: fence_info@,
            ..blank_model(KIND_FENCED_CODE)
        };
        let e = EngineNode {
            kind: KIND_FENCED_CODE,
            list_type: LIST_NONE,
            list_tight: false,
            list_start: 0,
            header_level: 0,
            literal,
            fence_info,
            url: None,
            title: None,
            children: Vec::new(),
        };
        proof {
            assert(e@.literal =~= m.literal);
            assert(e@.fence_info =~= m.fence_info);
            assert(e@.children =~= m.children);
            assert(e@ =~~= m);
        }
        e
    }

    /// A container node holding `children`.
    pub fn container(kind: u32, children: Vec<EngineNode>) -> (e: EngineNode)
        ensures
            e@ == (EngineModel { children: engine_seq_view(children@), ..blank_model(kind) }),
    {
        let ghost m = EngineModel { children: engine_seq_view(children@), ..blank_model(kind) };
        let e = EngineNode {
            kind,
            list_type: LIST_NONE,
            list_tight: false,
            list_start: 0,
            header_level: 0,
            literal: String::new(),
            fence_info: String::new(),
            url: None,
            title: None,
            children,
        };
        proof {
            assert(e@.literal =~= m.literal);
            assert(e@.fence_info =~= m.fence_info);
            assert(e@.children =~= m.children);
            assert(e@ =~~= m);
        }
        e
    }

    /// A header node of the given kind and level, around inline children.
    pub fn header(kind: u32, header_level: usize, children: Vec<EngineNode>) -> (e: EngineNode)
        ensures
            e@ == (EngineModel {
                header_level: header_level as nat,
                children: engine_seq_view(children@),
                ..blank_model(kind)
            }),
    {
        let ghost m = EngineModel {
            header_level: header_level as nat,
            children: engine_seq_view(children@),
            ..blank_model(kind)
        };
        let e = EngineNode {
            kind,
            list_type: LIST_NONE,
            list_tight: false,
            list_start: 0,
            header_level,
            literal: String::new(),
            fence_info: String::new(),
            url: None,
            title: None,
            children,
        };
        proof {
            assert(e@.literal =~= m.literal);
            assert(e@.fence_info =~= m.fence_info);
            assert(e@.children =~= m.children);
            assert(e@ =~~= m);
        }
        e
    }

    /// A list node around its items.
    pub fn list(list_type: u32, list_tight: bool, list_start: usize, children: Vec<EngineNode>) -> (e: EngineNode)
        ensures
            e@ == (EngineModel {
                list_type,
                list_tight,
                list_start: list_start as nat,
                children: engine_seq_view(children@),
                ..blank_model(KIND_LIST)
            }),
    {
        let ghost m = EngineModel {
            list_type,
            list_tight,
            list_start: list_start as nat,
            children: engine_seq_view(children@),
            ..blank_model(KIND_LIST)
        };
        let e = EngineNode {
            kind: KIND_LIST,
            list_type,
            list_tight,
            list_start,
            header_level: 0,
            literal: String::new(),
            fence_info: String::new(),
            url: None,
            title: None,
            children,
        };
        proof {
            assert(e@.literal =~= m.literal);
            assert(e@.fence_info =~= m.fence_info);
            assert(e@.children =~= m.children);
            assert(e@ =~~= m);
        }
        e
    }

    /// A link or image node: optional destination and title, inline children.
    pub fn link(
        kind: u32,
        url: Option<String>,
        title: Option<String>,
        children: Vec<EngineNode>,
    ) -> (e: EngineNode)
        ensures
            e@ == (EngineModel {
                url: opt_text_view(url),
                title: opt_text_view(title),
                children: engine_seq_view(children@),
                ..blank_model(kind)
            }),
    {
        let ghost m = EngineModel {
            url: opt_text_view(url),
            title: opt_text_view(title),
            children: engine_seq_view(children@),
            ..blank_model(kind)
        };
        let e = EngineNode {
            kind,
            list_type: LIST_NONE,
            list_tight: false,
            list_start: 0,
            header_level: 0,
            literal: String::new(),
            fence_info: String::new(),
            url,
            title,
            children,
        };
        proof {
            assert(e@.literal =~= m.literal);
            assert(e@.fence_info =~= m.fence_info);
            assert(e@.children =~= m.children);
            assert(e@ =~~= m);
        }
        e
    }

    /// Whether this report honours the engine's contract; see [`engine_wf`].
    /// Callers outside the proved world can test a report before handing it
    /// to the converter.
    pub fn is_wf(&self) -> (b: bool)
        ensures
            b == engine_wf(self@),
        decreases self@, 0int,
    {
        if self.kind == KIND_LIST && !(self.list_type == LIST_BULLET || self.list_type
            == LIST_ORDERED) {
            return false;
        }
        if (self.kind == KIND_ATX_HEADER || self.kind == KIND_SETEXT_HEADER) && !(1
            <= self.header_level && self.header_level <= 6) {
            return false;
        }
        let mut i: usize = 0;
        while i < self.children.len()
            invariant
                i <= self.children@.len(),
                self.kind == KIND_LIST ==> self.list_type == LIST_BULLET || self.list_type
                    == LIST_ORDERED,
                (self.kind == KIND_ATX_HEADER || self.kind == KIND_SETEXT_HEADER) ==> 1
                    <= self.header_level <= 6,
                forall|j: int| 0 <= j < i ==> engine_wf(#[trigger] self@.children[j]),
            decreases self@.children.len() - i,
        {
            proof {
                assert(self@.children[i as int] == self.children@[i as int]@);
            }
            if !self.children[i].is_wf() {
                proof {
                    assert(!engine_wf(self@.children[i as int]));
                }
                return false;
            }
            i = i + 1;
        }
        true
    }
}

} // verus!
