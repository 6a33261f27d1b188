use vstd::prelude::*;

verus! {

/// Whether a list is bulleted or numbered.
#[derive(Clone, Copy, Debug, PartialEq, Eq, Structural)]
pub enum ListType {
    Bullet,
    Ordered,
}

/// The punctuation that follows the number of an ordered list item.
#[derive(Clone, Copy, Debug, PartialEq, Eq, Structural)]
pub enum ListDelimType {
    Period,
    Paren,
}

/// Alignment of one table column; `Unset` when the delimiter row gives none.
#[derive(Clone, Copy, Debug, PartialEq, Eq, Structural)]
pub enum TableAlignment {
    Unset,
    Left,
    Center,
    Right,
}

/// Formatting of a list, shared by the list and each of its items.
pub struct ListAttrs {
    pub list_type: ListType,
    pub start: usize,
    pub delimiter: ListDelimType,
    pub bullet_char: char,
    pub tight: bool,
}

/// Attributes of an indented or fenced code block.
pub struct CodeBlockAttrs {
    pub fenced: bool,
    pub fence_char: char,
    pub fence_length: usize,
    pub info: String,
    pub literal: String,
}

/// Attributes of an ATX or setext heading.
pub struct HeadingAttrs {
    pub level: u8,
    pub setext: bool,
}

/// Target and title of a link or an image.
pub struct LinkAttrs {
    pub url: String,
    pub title: String,
}

/// The kind of a syntax-tree node with its attributes.
///
/// The variants from `Document` to `FootnoteReference` form the supported
/// taxonomy. The remaining ones are produced by dialect extensions that the
/// exchange format has no shape for; encoding a tree that holds one fails.
pub enum NodeValue {
    Document,
    BlockQuote,
    List(ListAttrs),
    Item(ListAttrs),
    CodeBlock(CodeBlockAttrs),
    HtmlBlock(String),
    Paragraph,
    Heading(HeadingAttrs),
    ThematicBreak,
    FootnoteDefinition(String),
    Table(Vec<TableAlignment>),
    TableRow(bool),
    TableCell,
    Text(String),
    SoftBreak,
    LineBreak,
    Code(String),
    HtmlInline(String),
    Emph,
    Strong,
    Strikethrough,
    Superscript,
    Link(LinkAttrs),
    Image(LinkAttrs),
    FootnoteReference(String),
    FrontMatter(String),
    DescriptionList,
    DescriptionItem,
    DescriptionTerm,
    DescriptionDetails,
    TaskItem(Option<char>),
    MultilineBlockQuote,
}

/// A node of a syntax tree: its kind and its children, in document order.
///
/// A node owns its children, so every node but the root has exactly one parent
/// and appears exactly once among that parent's children.
pub struct AstNode {
    pub value: NodeValue,
    pub children: Vec<AstNode>,
}

/// The kinds that the exchange format can carry.
pub open spec fn value_supported(v: NodeValue) -> bool {
    match v {
        NodeValue::FrontMatter(_) => false,
        NodeValue::DescriptionList => false,
        NodeValue::DescriptionItem => false,
        NodeValue::DescriptionTerm => false,
        NodeValue::DescriptionDetails => false,
        NodeValue::TaskItem(_) => false,
        NodeValue::MultilineBlockQuote => false,
        _ => true,
    }
}

/// Every node of the tree is of a supported kind.
pub open spec fn supported(t: AstNode) -> bool
    decreases t,
{
    &&& value_supported(t.value)
    &&& forall|i: int|
        0 <= i < t.children@.len() ==> supported(#[trigger] t.children[i])
}

/// Each child is strictly smaller than its parent, which lets a recursive
/// definition over the tree be unfolded at the parent.
pub proof fn lemma_children_decrease(t: AstNode)
    ensures
        forall|i: int| 0 <= i < t.children@.len() ==> #[trigger] decreases_to!(t => t.children[i]),
{
    broadcast use vstd::std_specs::vec::axiom_vec_index_decreases;
    assert forall|i: int| 0 <= i < t.children@.len() implies decreases_to!(t => t.children[i]) by {
        assert(decreases_to!(t.children => t.children[i]));
    }
}

/// Unfolds `supported` at one node.
pub proof fn lemma_supported_unfold(t: AstNode)
    ensures
        supported(t) <==> (value_supported(t.value) && forall|i: int|
            0 <= i < t.children@.len() ==> supported(#[trigger] t.children[i])),
{
    lemma_children_decrease(t);
    if supported(t) {
        assert forall|i: int| 0 <= i < t.children@.len() implies supported(t.children[i]) by {
            assert(decreases_to!(t => t.children[i]));
        }
    }
    if value_supported(t.value) && forall|i: int|
        0 <= i < t.children@.len() ==> supported(#[trigger] t.children[i]) {
        assert forall|i: int| 0 <= i < t.children@.len() implies supported(t.children[i])
            && decreases_to!(t => t.children[i]) by {}
    }
}

/// Two node kinds agree in variant and in every attribute.
pub open spec fn same_value(a: NodeValue, b: NodeValue) -> bool {
    match (a, b) {
        (NodeValue::Table(x), NodeValue::Table(y)) => x@ == y@,
        _ => a == b,
    }
}

/// Two trees agree node for node: same kinds and attributes, same shape, and
/// children in the same order.
pub open spec fn same_tree(a: AstNode, b: AstNode) -> bool
    decreases a,
{
    &&& same_value(a.value, b.value)
    &&& a.children@.len() == b.children@.len()
    &&& forall|i: int|
        0 <= i < a.children@.len() ==> same_tree(#[trigger] a.children[i], b.children[i])
}

/// Unfolds `same_tree` at one node.
pub proof fn lemma_same_tree_unfold(a: AstNode, b: AstNode)
    ensures
        same_tree(a, b) <==> {
            &&& same_value(a.value, b.value)
            &&& a.children@.len() == b.children@.len()
            &&& forall|i: int|
                0 <= i < a.children@.len() ==> same_tree(#[trigger] a.children[i], b.children[i])
        },
{
    lemma_children_decrease(a);
    if same_tree(a, b) {
        assert forall|i: int| 0 <= i < a.children@.len() implies same_tree(
            a.children[i],
            b.children[i],
        ) by {
            assert(decreases_to!(a => a.children[i]));
        }
    }
    if same_value(a.value, b.value) && a.children@.len() == b.children@.len() && forall|i: int|
        0 <= i < a.children@.len() ==> same_tree(#[trigger] a.children[i], b.children[i]) {
        assert forall|i: int| 0 <= i < a.children@.len() implies same_tree(
            a.children[i],
            b.children[i],
        ) && decreases_to!(a => a.children[i]) by {}
    }
}

} // verus!
