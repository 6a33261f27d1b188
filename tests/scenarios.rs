use comrak::nodes::{AstNode as EngineNode, NodeValue as EngineValue};
use markdown_native::encoder::{encode_ast_node, is_supported};
use markdown_native::engine::markdown_to_html;
use markdown_native::exchange::{EncodedNode, Payload};
use markdown_native::options::{encode, Options};
use markdown_native::tree::{
    AstNode, CodeBlockAttrs, HeadingAttrs, LinkAttrs, ListAttrs, ListDelimType, ListType,
    NodeValue, TableAlignment,
};

fn list_attrs(l: &comrak::nodes::NodeList) -> ListAttrs {
    ListAttrs {
        list_type: match l.list_type {
            comrak::nodes::ListType::Bullet => ListType::Bullet,
            comrak::nodes::ListType::Ordered => ListType::Ordered,
        },
        start: l.start,
        delimiter: match l.delimiter {
            comrak::nodes::ListDelimType::Period => ListDelimType::Period,
            comrak::nodes::ListDelimType::Paren => ListDelimType::Paren,
        },
        bullet_char: l.bullet_char as char,
        tight: l.tight,
    }
}

fn link_attrs(l: &comrak::nodes::NodeLink) -> LinkAttrs {
    LinkAttrs { url: l.url.clone(), title: l.title.clone() }
}

fn alignment(a: &comrak::nodes::TableAlignment) -> TableAlignment {
    match a {
        comrak::nodes::TableAlignment::None => TableAlignment::Unset,
        comrak::nodes::TableAlignment::Left => TableAlignment::Left,
        comrak::nodes::TableAlignment::Center => TableAlignment::Center,
        comrak::nodes::TableAlignment::Right => TableAlignment::Right,
    }
}

fn convert<'a>(n: &'a EngineNode<'a>) -> AstNode {
    let value = match &n.data.borrow().value {
        EngineValue::Document => NodeValue::Document,
        EngineValue::FrontMatter(s) => NodeValue::FrontMatter(s.clone()),
        EngineValue::BlockQuote => NodeValue::BlockQuote,
        EngineValue::List(l) => NodeValue::List(list_attrs(l)),
        EngineValue::Item(l) => NodeValue::Item(list_attrs(l)),
        EngineValue::DescriptionList => NodeValue::DescriptionList,
        EngineValue::DescriptionItem(_) => NodeValue::DescriptionItem,
        EngineValue::DescriptionTerm => NodeValue::DescriptionTerm,
        EngineValue::DescriptionDetails => NodeValue::DescriptionDetails,
        EngineValue::CodeBlock(c) => NodeValue::CodeBlock(CodeBlockAttrs {
            fenced: c.fenced,
            fence_char: c.fence_char as char,
            fence_length: c.fence_length,
            info: c.info.clone(),
            literal: c.literal.clone(),
        }),
        EngineValue::HtmlBlock(h) => NodeValue::HtmlBlock(h.literal.clone()),
        EngineValue::Paragraph => NodeValue::Paragraph,
        EngineValue::Heading(h) => {
            NodeValue::Heading(HeadingAttrs { level: h.level, setext: h.setext })
        }
        EngineValue::ThematicBreak => NodeValue::ThematicBreak,
        EngineValue::FootnoteDefinition(f) => NodeValue::FootnoteDefinition(f.name.clone()),
        EngineValue::Table(t) => NodeValue::Table(t.alignments.iter().map(alignment).collect()),
        EngineValue::TableRow(h) => NodeValue::TableRow(*h),
        EngineValue::TableCell => NodeValue::TableCell,
        EngineValue::Text(s) => NodeValue::Text(s.clone()),
        EngineValue::TaskItem(c) => NodeValue::TaskItem(*c),
        EngineValue::SoftBreak => NodeValue::SoftBreak,
        EngineValue::LineBreak => NodeValue::LineBreak,
        EngineValue::Code(c) => NodeValue::Code(c.literal.clone()),
        EngineValue::HtmlInline(s) => NodeValue::HtmlInline(s.clone()),
        EngineValue::Emph => NodeValue::Emph,
        EngineValue::Strong => NodeValue::Strong,
        EngineValue::Strikethrough => NodeValue::Strikethrough,
        EngineValue::Superscript => NodeValue::Superscript,
        EngineValue::Link(l) => NodeValue::Link(link_attrs(l)),
        EngineValue::Image(l) => NodeValue::Image(link_attrs(l)),
        EngineValue::FootnoteReference(f) => NodeValue::FootnoteReference(f.name.clone()),
        EngineValue::MultilineBlockQuote(_) => NodeValue::MultilineBlockQuote,
    };
    AstNode { value, children: n.children().map(convert).collect() }
}

fn ast_of(md: &str, opts: Options) -> EncodedNode {
    let arena = comrak::Arena::new();
    let root = comrak::parse_document(&arena, md, &encode(opts).to_comrak());
    let tree = convert(root);
    assert!(is_supported(&tree));
    encode_ast_node(&tree)
}

fn text_of(e: &EncodedNode) -> String {
    match &e.payload {
        Payload::Text(t) => t.text.clone(),
        _ => panic!("not a text node"),
    }
}

#[test]
fn minimal_document() {
    let doc = ast_of("hello", Options::default());
    assert!(matches!(doc.payload, Payload::Document(_)));
    assert_eq!(doc.children.len(), 1);
    let para = &doc.children[0];
    assert!(matches!(para.payload, Payload::Paragraph(_)));
    assert_eq!(para.children.len(), 1);
    assert_eq!(text_of(&para.children[0]), "hello");
    assert!(para.children[0].children.is_empty());
}

#[test]
fn atx_heading() {
    let doc = ast_of("# Title", Options::default());
    assert_eq!(doc.children.len(), 1);
    let heading = &doc.children[0];
    match &heading.payload {
        Payload::Heading(h) => {
            assert_eq!(h.heading.level, 1);
            assert!(!h.heading.setext);
        }
        _ => panic!("expected a heading"),
    }
    assert_eq!(heading.children.len(), 1);
    assert_eq!(text_of(&heading.children[0]), "Title");
}

#[test]
fn fenced_code_block() {
    let doc = ast_of("```rs\ncode\n```", Options::default());
    assert_eq!(doc.children.len(), 1);
    match &doc.children[0].payload {
        Payload::CodeBlock(c) => {
            assert!(c.block.fenced);
            assert_eq!(c.block.fence_char, "`");
            assert_eq!(c.block.fence_length, 3);
            assert_eq!(c.block.info, "rs");
            assert_eq!(c.block.literal, "code\n");
        }
        _ => panic!("expected a code block"),
    }
    assert!(doc.children[0].children.is_empty());
}

#[test]
fn table_alignments_from_source() {
    let mut opts = Options::default();
    opts.table = true;
    let doc = ast_of("| a | b | c |\n|:--|---|:-:|\n| 1 | 2 | 3 |\n", opts);
    match &doc.children[0].payload {
        Payload::Table(t) => assert_eq!(t.alignments, vec!["left", "none", "center"]),
        _ => panic!("expected a table"),
    }
}

#[test]
fn bullet_list_items_in_order() {
    let doc = ast_of("- A\n- B\n- C\n", Options::default());
    let list = &doc.children[0];
    match &list.payload {
        Payload::List(l) => {
            assert_eq!(l.list.list_type, "bullet");
            assert_eq!(l.list.bullet_char, "-");
            assert!(l.list.tight);
        }
        _ => panic!("expected a list"),
    }
    assert_eq!(list.children.len(), 3);
    for (item, expected) in list.children.iter().zip(["A", "B", "C"]) {
        assert!(matches!(item.payload, Payload::Item(_)));
        assert_eq!(text_of(&item.children[0].children[0]), expected);
    }
}

#[test]
fn task_list_is_refused_by_the_encoder() {
    let mut opts = Options::default();
    opts.tasklist = true;
    let arena = comrak::Arena::new();
    let root = comrak::parse_document(&arena, "- [x] done\n", &encode(opts).to_comrak());
    assert!(!is_supported(&convert(root)));
}

#[test]
fn direct_html_path() {
    let html = markdown_to_html("**x**", Options::default());
    assert!(html.contains("<strong>x</strong>"));
    assert_eq!(html, "<p><strong>x</strong></p>\n");
}

#[test]
fn html_honours_render_options() {
    let mut opts = Options::default();
    opts.hardbreaks = true;
    assert_eq!(markdown_to_html("a\nb", opts), "<p>a<br />\nb</p>\n");
    assert_eq!(markdown_to_html("a\nb", Options::default()), "<p>a\nb</p>\n");
    let mut strike = Options::default();
    strike.strikethrough = true;
    assert_eq!(markdown_to_html("~~s~~", strike), "<p><del>s</del></p>\n");
    assert_eq!(markdown_to_html("~~s~~", Options::default()), "<p>~~s~~</p>\n");
}

#[test]
fn default_rendering_withholds_raw_html() {
    let html = markdown_to_html("<div>x</div>", Options::default());
    assert!(!html.contains("<div>"));
    assert!(html.contains("&lt;div&gt;"));
    let mut omitted = Options::default();
    omitted.escape = false;
    assert!(markdown_to_html("<div>x</div>", omitted).contains("raw HTML omitted"));
    let mut raw = Options::default();
    raw.escape = false;
    raw.unsafe_ = true;
    assert!(markdown_to_html("<div>x</div>", raw).contains("<div>x</div>"));
}
