use cmark_ast::EngineNode;
use cmark_ast::Node;
use cmark_ast::ParseError;
use cmark_ast::Parser;
use cmark_ast::engine::KIND_ATX_HEADER;
use cmark_ast::engine::KIND_DOCUMENT;
use cmark_ast::engine::KIND_HTML_BLOCK;
use cmark_ast::engine::KIND_INDENTED_CODE;
use cmark_ast::engine::KIND_LINK;
use cmark_ast::engine::KIND_LIST_ITEM;
use cmark_ast::engine::KIND_PARAGRAPH;
use cmark_ast::engine::KIND_TEXT;
use cmark_ast::engine::LIST_BULLET;
use cmark_ast::engine::LIST_ORDERED;

fn text(s: &str) -> EngineNode {
    EngineNode::text_leaf(KIND_TEXT, s.to_string())
}

fn paragraph(children: Vec<EngineNode>) -> EngineNode {
    EngineNode::container(KIND_PARAGRAPH, children)
}

fn item(children: Vec<EngineNode>) -> EngineNode {
    EngineNode::container(KIND_LIST_ITEM, children)
}

fn text_item(s: &str) -> EngineNode {
    item(vec![paragraph(vec![text(s)])])
}

fn expected_text_item(s: &str) -> Node {
    Node::ListItem(vec![Node::Paragraph(vec![Node::Text(s.to_string())])])
}

/// The engine's report for the document
///
/// ```markdown
/// ## Header
/// * Item 1
/// * Item 2
///
/// 2. Item 1
///
/// 3. Item 2
///
///
///     code
///
/// ``` lang
/// fenced
/// ```
///
/// <div>html</div>
///
/// [link](url 'title')
/// ```
fn whole_document_report() -> EngineNode {
    EngineNode::container(
        KIND_DOCUMENT,
        vec![
            EngineNode::header(KIND_ATX_HEADER, 2, vec![text("Header")]),
            EngineNode::list(
                LIST_BULLET,
                true,
                0,
                vec![text_item("Item 1"), text_item("Item 2")],
            ),
            EngineNode::list(
                LIST_ORDERED,
                false,
                2,
                vec![text_item("Item 1"), text_item("Item 2")],
            ),
            EngineNode::text_leaf(KIND_INDENTED_CODE, "code\n".to_string()),
            EngineNode::fenced("lang".to_string(), "fenced\n".to_string()),
            EngineNode::text_leaf(KIND_HTML_BLOCK, "<div>html</div>\n".to_string()),
            paragraph(vec![EngineNode::link(
                KIND_LINK,
                Some("url".to_string()),
                Some("title".to_string()),
                vec![text("link")],
            )]),
        ],
    )
}

#[test]
fn parse_document() {
    let doc = Parser::parse_document(&whole_document_report());
    let expected = Node::Document(vec![
        Node::AtxHeader(2, vec![Node::Text("Header".to_string())]),
        Node::BulletList {
            tight: true,
            items: vec![expected_text_item("Item 1"), expected_text_item("Item 2")],
        },
        Node::OrderedList {
            tight: false,
            start: 2,
            items: vec![expected_text_item("Item 1"), expected_text_item("Item 2")],
        },
        Node::IndentedCode("code\n".to_string()),
        Node::FencedCode("lang".to_string(), "fenced\n".to_string()),
        Node::HtmlBlock("<div>html</div>\n".to_string()),
        Node::Paragraph(vec![Node::Link {
            url: Some("url".to_string()),
            title: Some("title".to_string()),
            children: vec![Node::Text("link".to_string())],
        }]),
    ]);
    assert_eq!(Ok(expected), doc);
}

#[test]
fn atx_header_alone() {
    // "## Header\n"
    let report = EngineNode::container(
        KIND_DOCUMENT,
        vec![EngineNode::header(KIND_ATX_HEADER, 2, vec![text("Header")])],
    );
    let expected = Node::Document(vec![Node::AtxHeader(
        2,
        vec![Node::Text("Header".to_string())],
    )]);
    assert_eq!(Ok(expected), Parser::parse_document(&report));
}

#[test]
fn bullet_list_tight_flips_with_blank_line() {
    // "* Item 1\n* Item 2\n": no blank line, so the engine reports tight.
    let tight_report = EngineNode::container(
        KIND_DOCUMENT,
        vec![EngineNode::list(
            LIST_BULLET,
            true,
            0,
            vec![text_item("Item 1"), text_item("Item 2")],
        )],
    );
    let tight_doc = Parser::parse_document(&tight_report).unwrap();
    match &tight_doc {
        Node::Document(children) => match &children[0] {
            Node::BulletList { tight, items } => {
                assert!(*tight);
                assert_eq!(2, items.len());
            }
            other => panic!("expected a bullet list, got {:?}", other),
        },
        other => panic!("expected a document, got {:?}", other),
    }

    // "* Item 1\n\n* Item 2\n": a blank line between the items flips tight.
    let loose_report = EngineNode::container(
        KIND_DOCUMENT,
        vec![EngineNode::list(
            LIST_BULLET,
            false,
            0,
            vec![text_item("Item 1"), text_item("Item 2")],
        )],
    );
    let loose_doc = Parser::parse_document(&loose_report).unwrap();
    match &loose_doc {
        Node::Document(children) => match &children[0] {
            Node::BulletList { tight, .. } => assert!(!*tight),
            other => panic!("expected a bullet list, got {:?}", other),
        },
        other => panic!("expected a document, got {:?}", other),
    }
}

#[test]
fn ordered_list_keeps_start_and_looseness() {
    // "2. Item 1\n\n3. Item 2\n"
    let report = EngineNode::container(
        KIND_DOCUMENT,
        vec![EngineNode::list(
            LIST_ORDERED,
            false,
            2,
            vec![text_item("Item 1"), text_item("Item 2")],
        )],
    );
    let expected = Node::Document(vec![Node::OrderedList {
        tight: false,
        start: 2,
        items: vec![expected_text_item("Item 1"), expected_text_item("Item 2")],
    }]);
    assert_eq!(Ok(expected), Parser::parse_document(&report));
}

#[test]
fn fenced_code_keeps_info_and_body() {
    // "``` lang\nfenced\n```\n"
    let report = EngineNode::container(
        KIND_DOCUMENT,
        vec![EngineNode::fenced("lang".to_string(), "fenced\n".to_string())],
    );
    let expected = Node::Document(vec![Node::FencedCode(
        "lang".to_string(),
        "fenced\n".to_string(),
    )]);
    assert_eq!(Ok(expected), Parser::parse_document(&report));
}

#[test]
fn link_keeps_url_and_title() {
    // "[link](url 'title')\n"
    let report = EngineNode::container(
        KIND_DOCUMENT,
        vec![paragraph(vec![EngineNode::link(
            KIND_LINK,
            Some("url".to_string()),
            Some("title".to_string()),
            vec![text("link")],
        )])],
    );
    let expected = Node::Document(vec![Node::Paragraph(vec![Node::Link {
        url: Some("url".to_string()),
        title: Some("title".to_string()),
        children: vec![Node::Text("link".to_string())],
    }])]);
    assert_eq!(Ok(expected), Parser::parse_document(&report));
}

#[test]
fn absent_url_differs_from_empty_url() {
    let without = EngineNode::container(
        KIND_DOCUMENT,
        vec![paragraph(vec![EngineNode::link(
            KIND_LINK,
            None,
            None,
            vec![text("link")],
        )])],
    );
    let with_empty = EngineNode::container(
        KIND_DOCUMENT,
        vec![paragraph(vec![EngineNode::link(
            KIND_LINK,
            Some(String::new()),
            None,
            vec![text("link")],
        )])],
    );
    let doc_without = Parser::parse_document(&without).unwrap();
    let doc_with_empty = Parser::parse_document(&with_empty).unwrap();
    assert_ne!(doc_without, doc_with_empty);
}

#[test]
fn unsupported_kind_is_contained() {
    // A kind tag with no mapping fails the conversion, it never aborts.
    let report = EngineNode::leaf(99);
    assert_eq!(
        Err(ParseError::UnsupportedKind(99)),
        Parser::parse_document(&report)
    );
}

#[test]
fn unsupported_kind_deep_in_the_tree() {
    let report = EngineNode::container(
        KIND_DOCUMENT,
        vec![paragraph(vec![text("fine")]), EngineNode::leaf(77)],
    );
    assert_eq!(
        Err(ParseError::UnsupportedKind(77)),
        Parser::parse_document(&report)
    );
}

#[test]
fn empty_document() {
    let report = EngineNode::container(KIND_DOCUMENT, Vec::new());
    assert_eq!(
        Ok(Node::Document(Vec::new())),
        Parser::parse_document(&report)
    );
}

#[test]
fn incremental_agrees_with_batch() {
    // Feed the document line by line, then finish on the engine's report;
    // the batch entry point gets the same report.
    let report = whole_document_report();
    let mut parser = Parser::new();
    assert!(!parser.is_finished());
    parser.process_line(b"## Header\n").unwrap();
    parser.process_line(b"* Item 1\n").unwrap();
    parser.process_line(b"* Item 2\n").unwrap();
    let incremental = parser.finish(&report);
    assert!(parser.is_finished());
    let batch = Parser::parse_document(&report);
    assert_eq!(batch, incremental);
}

#[test]
fn finish_twice_is_invalid_state() {
    let report = EngineNode::container(KIND_DOCUMENT, Vec::new());
    let mut parser = Parser::new();
    assert!(parser.finish(&report).is_ok());
    assert_eq!(Err(ParseError::InvalidState), parser.finish(&report));
}

#[test]
fn process_line_after_finish_is_invalid_state() {
    let report = EngineNode::container(KIND_DOCUMENT, Vec::new());
    let mut parser = Parser::new();
    parser.finish(&report).unwrap();
    assert_eq!(
        Err(ParseError::InvalidState),
        parser.process_line(b"late\n")
    );
}

#[test]
fn conversion_is_repeatable() {
    // No hidden state: converting the same report twice gives equal trees.
    let report = whole_document_report();
    let first = Parser::parse_document(&report);
    let second = Parser::parse_document(&report);
    assert_eq!(first, second);
}

#[test]
fn well_formedness_check_accepts_and_rejects() {
    assert!(whole_document_report().is_wf());
    // A list whose type is neither bullet nor ordered breaks the engine's
    // contract.
    let bad_list = EngineNode::container(
        KIND_DOCUMENT,
        vec![EngineNode::list(7, true, 0, vec![text_item("x")])],
    );
    assert!(!bad_list.is_wf());
    // So does a header level outside 1..=6.
    let bad_header = EngineNode::container(
        KIND_DOCUMENT,
        vec![EngineNode::header(KIND_ATX_HEADER, 7, vec![text("x")])],
    );
    assert!(!bad_header.is_wf());
}
