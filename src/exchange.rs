use vstd::prelude::*;

use crate::tree::{
    lemma_children_decrease, lemma_same_tree_unfold, same_tree, same_value, AstNode, CodeBlockAttrs, LinkAttrs, ListAttrs, ListDelimType, ListType, NodeValue,
    TableAlignment,
};

verus! {

/// Exchange payload of a list or list item: kind, start, delimiter and bullet as labels.
pub struct NodeList {
    pub list_type: String,
    pub start: usize,
    pub delimiter: String,
    pub bullet_char: String,
    pub tight: bool,
}

/// Exchange payload of a code block; the fence glyph is a one-character string.
pub struct NodeCodeBlock {
    pub fenced: bool,
    pub fence_char: String,
    pub fence_length: usize,
    pub info: String,
    pub literal: String,
}

/// Exchange payload of a raw HTML block.
pub struct NodeHtmlBlock {
    pub literal: String,
}

/// Exchange payload of a heading.
pub struct NodeHeading {
    pub level: u8,
    pub setext: bool,
}

/// Exchange payload of a link or an image.
pub struct NodeLink {
    pub url: String,
    pub title: String,
}

pub struct Document;

pub struct BlockQuote;

pub struct List {
    pub list: NodeList,
}

pub struct Item {
    pub list: NodeList,
}

pub struct CodeBlock {
    pub block: NodeCodeBlock,
}

pub struct HtmlBlock {
    pub block: NodeHtmlBlock,
}

pub struct Paragraph;

pub struct Heading {
    pub heading: NodeHeading,
}

pub struct ThematicBreak;

pub struct FootnoteDefinition {
    pub name: String,
}

/// Column alignments, one label per column, in column order.
pub struct Table {
    pub alignments: Vec<String>,
}

pub struct TableRow {
    pub header: bool,
}

pub struct TableCell;

pub struct Text {
    pub text: String,
}

pub struct SoftBreak;

pub struct LineBreak;

pub struct Code {
    pub code: String,
}

pub struct HtmlInline {
    pub html: String,
}

pub struct Emph;

pub struct Strong;

pub struct Strikethrough;

pub struct Superscript;

pub struct Link {
    pub link: NodeLink,
}

pub struct Image {
    pub link: NodeLink,
}

pub struct FootnoteReference {
    pub name: String,
}

/// The tagged payload of one encoded node: the variant is the tag.
pub enum Payload {
    Document(Document),
    BlockQuote(BlockQuote),
    List(List),
    Item(Item),
    CodeBlock(CodeBlock),
    HtmlBlock(HtmlBlock),
    Paragraph(Paragraph),
    Heading(Heading),
    ThematicBreak(ThematicBreak),
    FootnoteDefinition(FootnoteDefinition),
    Table(Table),
    TableRow(TableRow),
    TableCell(TableCell),
    Text(Text),
    SoftBreak(SoftBreak),
    LineBreak(LineBreak),
    Code(Code),
    HtmlInline(HtmlInline),
    Emph(Emph),
    Strong(Strong),
    Strikethrough(Strikethrough),
    Superscript(Superscript),
    Link(Link),
    Image(Image),
    FootnoteReference(FootnoteReference),
}

/// One exchange record: the node's tagged payload and its encoded children in order.
pub struct EncodedNode {
    pub payload: Payload,
    pub children: Vec<EncodedNode>,
}

pub open spec fn list_type_label(t: ListType) -> Seq<char> {
    match t {
        ListType::Bullet => "bullet"@,
        ListType::Ordered => "ordered"@,
    }
}

pub open spec fn delimiter_label(d: ListDelimType) -> Seq<char> {
    match d {
        ListDelimType::Period => "period"@,
        ListDelimType::Paren => "paren"@,
    }
}

/// Unset alignment has a label of its own, so no column is ever left out.
pub open spec fn alignment_label(a: TableAlignment) -> Seq<char> {
    match a {
        TableAlignment::Left => "left"@,
        TableAlignment::Right => "right"@,
        TableAlignment::Center => "center"@,
        TableAlignment::Unset => "none"@,
    }
}

pub open spec fn list_payload(a: ListAttrs, p: NodeList) -> bool {
    &&& p.list_type@ == list_type_label(a.list_type)
    &&& p.start == a.start
    &&& p.delimiter@ == delimiter_label(a.delimiter)
    &&& p.bullet_char@ == seq![a.bullet_char]
    &&& p.tight == a.tight
}

pub open spec fn code_block_payload(a: CodeBlockAttrs, p: NodeCodeBlock) -> bool {
    &&& p.fenced == a.fenced
    &&& p.fence_char@ == seq![a.fence_char]
    &&& p.fence_length == a.fence_length
    &&& p.info == a.info
    &&& p.literal == a.literal
}

pub open spec fn link_payload(a: LinkAttrs, p: NodeLink) -> bool {
    p.url == a.url && p.title == a.title
}

/// One label per column, in column order.
pub open spec fn alignments_payload(a: Seq<TableAlignment>, p: Seq<String>) -> bool {
    &&& p.len() == a.len()
    &&& forall|i: int| 0 <= i < a.len() ==> #[trigger] p[i]@ == alignment_label(a[i])
}

/// `p` is the payload of a node of kind `v`: same tag, and exactly the
/// attributes of `v`. No payload stands for an unsupported kind.
pub open spec fn payload_of(v: NodeValue, p: Payload) -> bool {
    match v {
        NodeValue::Document => p is Document,
        NodeValue::BlockQuote => p is BlockQuote,
        NodeValue::List(a) => p matches Payload::List(x) && list_payload(a, x.list),
        NodeValue::Item(a) => p matches Payload::Item(x) && list_payload(a, x.list),
        NodeValue::CodeBlock(a) => p matches Payload::CodeBlock(x) && code_block_payload(a, x.block),
        NodeValue::HtmlBlock(s) => p matches Payload::HtmlBlock(x) && x.block.literal == s,
        NodeValue::Paragraph => p is Paragraph,
        NodeValue::Heading(a) => p matches Payload::Heading(x) && x.heading.level == a.level
            && x.heading.setext == a.setext,
        NodeValue::ThematicBreak => p is ThematicBreak,
        NodeValue::FootnoteDefinition(s) => p matches Payload::FootnoteDefinition(x) && x.name == s,
        NodeValue::Table(a) => p matches Payload::Table(x) && alignments_payload(a@, x.alignments@),
        NodeValue::TableRow(h) => p matches Payload::TableRow(x) && x.header == h,
        NodeValue::TableCell => p is TableCell,
        NodeValue::Text(s) => p matches Payload::Text(x) && x.text == s,
        NodeValue::SoftBreak => p is SoftBreak,
        NodeValue::LineBreak => p is LineBreak,
        NodeValue::Code(s) => p matches Payload::Code(x) && x.code == s,
        NodeValue::HtmlInline(s) => p matches Payload::HtmlInline(x) && x.html == s,
        NodeValue::Emph => p is Emph,
        NodeValue::Strong => p is Strong,
        NodeValue::Strikethrough => p is Strikethrough,
        NodeValue::Superscript => p is Superscript,
        NodeValue::Link(a) => p matches Payload::Link(x) && link_payload(a, x.link),
        NodeValue::Image(a) => p matches Payload::Image(x) && link_payload(a, x.link),
        NodeValue::FootnoteReference(s) => p matches Payload::FootnoteReference(x) && x.name == s,
        _ => false,
    }
}

/// `e` is the encoding of the tree `t`: the payload of its root, and the
/// encodings of its children, one for one and in the same order.
pub open spec fn encodes(t: AstNode, e: EncodedNode) -> bool
    decreases t,
{
    &&& payload_of(t.value, e.payload)
    &&& e.children@.len() == t.children@.len()
    &&& forall|i: int|
        0 <= i < t.children@.len() ==> encodes(#[trigger] t.children[i], e.children[i])
}

/// Unfolds `encodes` at one node.
pub proof fn lemma_encodes_unfold(t: AstNode, e: EncodedNode)
    ensures
        encodes(t, e) <==> {
            &&& payload_of(t.value, e.payload)
            &&& e.children@.len() == t.children@.len()
            &&& forall|i: int|
                0 <= i < t.children@.len() ==> encodes(#[trigger] t.children[i], e.children[i])
        },
{
    lemma_children_decrease(t);
    if encodes(t, e) {
        assert forall|i: int| 0 <= i < t.children@.len() implies encodes(
            t.children[i],
            e.children[i],
        ) by {
            assert(decreases_to!(t => t.children[i]));
        }
    }
    if payload_of(t.value, e.payload) && e.children@.len() == t.children@.len() && forall|i: int|
        0 <= i < t.children@.len() ==> encodes(#[trigger] t.children[i], e.children[i]) {
        assert forall|i: int| 0 <= i < t.children@.len() implies encodes(
            t.children[i],
            e.children[i],
        ) && decreases_to!(t => t.children[i]) by {}
    }
}

/// The labels of distinct list kinds, delimiters and alignments differ.
proof fn lemma_labels_distinct()
    ensures
        list_type_label(ListType::Bullet) != list_type_label(ListType::Ordered),
        delimiter_label(ListDelimType::Period) != delimiter_label(ListDelimType::Paren),
        forall|a: TableAlignment, b: TableAlignment|
            alignment_label(a) == alignment_label(b) ==> a == b,
{
    reveal_strlit("bullet");
    reveal_strlit("ordered");
    reveal_strlit("period");
    reveal_strlit("paren");
    reveal_strlit("left");
    reveal_strlit("right");
    reveal_strlit("center");
    reveal_strlit("none");
    assert("bullet"@[0] != "ordered"@[0]);
    assert("period"@[1] != "paren"@[1]);
    assert("left"@[0] != "none"@[0]);
    assert("left"@.len() == 4 && "none"@.len() == 4);
    assert("right"@.len() == 5 && "center"@.len() == 6);
    assert forall|a: TableAlignment, b: TableAlignment|
        alignment_label(a) == alignment_label(b) implies a == b by {
        if alignment_label(a) == alignment_label(b) && (a is Left || a is Unset) {
            assert(alignment_label(a)[0] == alignment_label(b)[0]);
        }
    }
}

/// A payload determines the node kind and attributes it was made from.
proof fn lemma_payload_injective(a: NodeValue, b: NodeValue, p: Payload)
    requires
        payload_of(a, p),
        payload_of(b, p),
    ensures
        same_value(a, b),
{
    lemma_labels_distinct();
    match (a, b) {
        (NodeValue::List(x), NodeValue::List(y)) => {
            let l = p->List_0.list;
            assert(l.bullet_char@[0] == x.bullet_char && l.bullet_char@[0] == y.bullet_char);
        },
        (NodeValue::Item(x), NodeValue::Item(y)) => {
            let l = p->Item_0.list;
            assert(l.bullet_char@[0] == x.bullet_char && l.bullet_char@[0] == y.bullet_char);
        },
        (NodeValue::CodeBlock(x), NodeValue::CodeBlock(y)) => {
            let c = p->CodeBlock_0.block;
            assert(c.fence_char@[0] == x.fence_char && c.fence_char@[0] == y.fence_char);
        },
        (NodeValue::Table(x), NodeValue::Table(y)) => {
            let l = p->Table_0.alignments@;
            assert forall|i: int| 0 <= i < x@.len() implies x@[i] == y@[i] by {
                assert(alignment_label(x@[i]) == l[i]@);
                assert(alignment_label(y@[i]) == l[i]@);
            }
            assert(x@ =~= y@);
        },
        _ => {},
    }
}

/// Encoding loses nothing: an exchange value determines the tree it encodes.
/// Any two trees whose encodings coincide agree in every node kind, every
/// attribute, the shape, and the order of children, so decoding the encoder's
/// output and walking it again gives back the original tree.
pub proof fn lemma_encoding_lossless(t1: AstNode, t2: AstNode, e: EncodedNode)
    requires
        encodes(t1, e),
        encodes(t2, e),
    ensures
        same_tree(t1, t2),
    decreases t1,
{
    lemma_encodes_unfold(t1, e);
    lemma_encodes_unfold(t2, e);
    lemma_payload_injective(t1.value, t2.value, e.payload);
    lemma_children_decrease(t1);
    assert forall|i: int| 0 <= i < t1.children@.len() implies same_tree(
        t1.children[i],
        t2.children[i],
    ) by {
        lemma_encoding_lossless(t1.children[i], t2.children[i], e.children[i]);
    }
    lemma_same_tree_unfold(t1, t2);
}

/// The encoded children of a node are the encodings of its children, one for
/// one and in the same order: encoding never drops, adds or reorders siblings.
pub proof fn lemma_children_order_kept(t: AstNode, e: EncodedNode)
    requires
        encodes(t, e),
    ensures
        e.children@.len() == t.children@.len(),
        forall|i: int| 0 <= i < t.children@.len() ==> encodes(#[trigger] t.children[i], e.children[i]),
{
    lemma_encodes_unfold(t, e);
}

} // verus!
