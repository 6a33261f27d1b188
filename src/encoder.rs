use vstd::prelude::*;

use crate::exchange::{
    alignment_label, alignments_payload, code_block_payload, encodes, lemma_encodes_unfold, link_payload, list_payload,
    payload_of, BlockQuote, Code, CodeBlock, Document, Emph, EncodedNode,
    FootnoteDefinition, FootnoteReference, Heading, HtmlBlock, HtmlInline, Image, Item, LineBreak,
    Link, List, NodeCodeBlock, NodeHeading, NodeHtmlBlock, NodeLink, NodeList, Paragraph, Payload,
    SoftBreak, Strikethrough, Strong, Superscript, Table, TableCell, TableRow, Text,
    ThematicBreak,
};
use crate::tree::{
    lemma_children_decrease, lemma_supported_unfold, supported, value_supported, AstNode, CodeBlockAttrs, HeadingAttrs, LinkAttrs, ListAttrs,
    ListDelimType, ListType, NodeValue, TableAlignment,
};

verus! {

/// Relies on `char`'s `ToString`: the string made of that one character.
#[verifier::external_body]
fn char_string(c: char) -> (r: String)
    ensures
        r@ == seq![c],
{
    c.to_string()
}

impl NodeList {
    pub fn from(list: &ListAttrs) -> (r: NodeList)
        ensures
            list_payload(*list, r),
    {
        let list_type = match list.list_type {
            ListType::Bullet => "bullet".to_owned(),
            ListType::Ordered => "ordered".to_owned(),
        };
        let delimiter = match list.delimiter {
            ListDelimType::Period => "period".to_owned(),
            ListDelimType::Paren => "paren".to_owned(),
        };
        NodeList {
            list_type,
            start: list.start,
            delimiter,
            bullet_char: char_string(list.bullet_char),
            tight: list.tight,
        }
    }
}

impl NodeCodeBlock {
    pub fn from(block: &CodeBlockAttrs) -> (r: NodeCodeBlock)
        ensures
            code_block_payload(*block, r),
    {
        NodeCodeBlock {
            fenced: block.fenced,
            fence_char: char_string(block.fence_char),
            fence_length: block.fence_length,
            info: block.info.clone(),
            literal: block.literal.clone(),
        }
    }
}

impl NodeHtmlBlock {
    pub fn from(literal: &String) -> (r: NodeHtmlBlock)
        ensures
            r.literal == *literal,
    {
        NodeHtmlBlock { literal: literal.clone() }
    }
}

impl NodeHeading {
    pub fn from(heading: &HeadingAttrs) -> (r: NodeHeading)
        ensures
            r.level == heading.level,
            r.setext == heading.setext,
    {
        NodeHeading { level: heading.level, setext: heading.setext }
    }
}

impl NodeLink {
    pub fn from(link: &LinkAttrs) -> (r: NodeLink)
        ensures
            link_payload(*link, r),
    {
        NodeLink { url: link.url.clone(), title: link.title.clone() }
    }
}

/// The label of every column alignment, in column order.
pub fn alignment_labels(alignments: &Vec<TableAlignment>) -> (r: Vec<String>)
    ensures
        alignments_payload(alignments@, r@),
{
    let mut labels: Vec<String> = Vec::new();
    let mut i: usize = 0;
    while i < alignments.len()
        invariant
            i <= alignments@.len(),
            labels@.len() == i,
            forall|j: int| 0 <= j < i ==> #[trigger] labels@[j]@ == alignment_label(alignments@[j]),
        decreases alignments@.len() - i,
    {
        let label = match alignments[i] {
            TableAlignment::Left => "left".to_owned(),
            TableAlignment::Right => "right".to_owned(),
            TableAlignment::Center => "center".to_owned(),
            TableAlignment::Unset => "none".to_owned(),
        };
        labels.push(label);
        i = i + 1;
    }
    labels
}

/// Whether the exchange format has a shape for this node kind.
pub fn is_supported_value(value: &NodeValue) -> (r: bool)
    ensures
        r == value_supported(*value),
{
    match value {
        NodeValue::FrontMatter(_) => false,
        NodeValue::DescriptionList => false,
        NodeValue::DescriptionItem => false,
        NodeValue::DescriptionTerm => false,
        NodeValue::DescriptionDetails => false,
        NodeValue::TaskItem(_) => false,
        NodeValue::MultilineBlockQuote => false,
        _ => true,
    }
}

/// Whether every node of the tree is of a supported kind: the test to make
/// before handing a tree to the encoder.
pub fn is_supported(node: &AstNode) -> (r: bool)
    ensures
        r == supported(*node),
    decreases node,
{
    if !is_supported_value(&node.value) {
        proof {
            lemma_supported_unfold(*node);
        }
        return false;
    }
    let mut i: usize = 0;
    while i < node.children.len()
        invariant
            value_supported(node.value),
            i <= node.children@.len(),
            forall|j: int| 0 <= j < i ==> #[trigger] supported(node.children[j]),
        decreases node.children@.len() - i,
    {
        proof {
            lemma_children_decrease(*node);
        }
        if !is_supported(&node.children[i]) {
            proof {
                lemma_supported_unfold(*node);
            }
            return false;
        }
        i = i + 1;
    }
    proof {
        lemma_supported_unfold(*node);
    }
    true
}

/// The payload of a single node of a supported kind.
pub fn encode_payload(value: &NodeValue) -> (r: Payload)
    requires
        value_supported(*value),
    ensures
        payload_of(*value, r),
{
    match value {
        NodeValue::Document => Payload::Document(Document),
        NodeValue::BlockQuote => Payload::BlockQuote(BlockQuote),
        NodeValue::List(list) => Payload::List(List { list: NodeList::from(list) }),
        NodeValue::Item(list) => Payload::Item(Item { list: NodeList::from(list) }),
        NodeValue::CodeBlock(block) => Payload::CodeBlock(CodeBlock { block: NodeCodeBlock::from(block) }),
        NodeValue::HtmlBlock(literal) => Payload::HtmlBlock(HtmlBlock { block: NodeHtmlBlock::from(literal) }),
        NodeValue::Paragraph => Payload::Paragraph(Paragraph),
        NodeValue::Heading(heading) => Payload::Heading(Heading { heading: NodeHeading::from(heading) }),
        NodeValue::ThematicBreak => Payload::ThematicBreak(ThematicBreak),
        NodeValue::FootnoteDefinition(name) => Payload::FootnoteDefinition(FootnoteDefinition { name: name.clone() }),
        NodeValue::Table(alignments) => Payload::Table(Table { alignments: alignment_labels(alignments) }),
        NodeValue::TableRow(header) => Payload::TableRow(TableRow { header: *header }),
        NodeValue::TableCell => Payload::TableCell(TableCell),
        NodeValue::Text(text) => Payload::Text(Text { text: text.clone() }),
        NodeValue::SoftBreak => Payload::SoftBreak(SoftBreak),
        NodeValue::LineBreak => Payload::LineBreak(LineBreak),
        NodeValue::Code(code) => Payload::Code(Code { code: code.clone() }),
        NodeValue::HtmlInline(html) => Payload::HtmlInline(HtmlInline { html: html.clone() }),
        NodeValue::Emph => Payload::Emph(Emph),
        NodeValue::Strong => Payload::Strong(Strong),
        NodeValue::Strikethrough => Payload::Strikethrough(Strikethrough),
        NodeValue::Superscript => Payload::Superscript(Superscript),
        NodeValue::Link(link) => Payload::Link(Link { link: NodeLink::from(link) }),
        NodeValue::Image(link) => Payload::Image(Image { link: NodeLink::from(link) }),
        NodeValue::FootnoteReference(name) => Payload::FootnoteReference(FootnoteReference { name: name.clone() }),
        _ => vstd::pervasive::unreached(),
    }
}

/// Encodes a tree depth first, each node before its children, keeping the
/// children in order. A node kind outside the taxonomy means that the parser
/// and the encoder disagree, a fault rather than a data condition: such trees
/// are left out, and a caller tests with `is_supported` and aborts.
pub fn encode_ast_node(node: &AstNode) -> (r: EncodedNode)
    requires
        supported(*node),
    ensures
        encodes(*node, r),
    decreases node,
{
    proof {
        lemma_supported_unfold(*node);
    }
    let payload = encode_payload(&node.value);
    let mut children: Vec<EncodedNode> = Vec::new();
    let mut i: usize = 0;
    while i < node.children.len()
        invariant
            value_supported(node.value),
            payload_of(node.value, payload),
            i <= node.children@.len(),
            children@.len() == i,
            supported(*node),
            forall|j: int|
                0 <= j < i ==> #[trigger] encodes(node.children[j], children@[j]),
        decreases node.children@.len() - i,
    {
        proof {
            lemma_children_decrease(*node);
        }
        proof {
            lemma_supported_unfold(*node);
        }
        let child = encode_ast_node(&node.children[i]);
        children.push(child);
        i = i + 1;
    }
    let encoded = EncodedNode { payload, children };
    proof {
        lemma_encodes_unfold(*node, encoded);
    }
    encoded
}

} // verus!
