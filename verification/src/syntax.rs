//! A plain model of the syntax that discovery reads: paths, attributes,
//! return types, and the nesting of modules, impl blocks and functions.
//!
//! Every type here holds ordinary values only, so that a tree can be written
//! down by hand as well as read from parsed source; each has a view that
//! contracts speak of.

use vstd::prelude::*;

use crate::source::Span;

verus! {

/// The views of a sequence of values.
pub open spec fn views<T: View>(items: Seq<T>) -> Seq<T::V> {
    items.map_values(|x: T| x@)
}

/// The view of an optional value.
pub open spec fn option_view<T: View>(item: Option<T>) -> Option<T::V> {
    match item {
        Some(x) => Some(x@),
        None => None,
    }
}

/// One argument between the angle brackets of a path segment.
#[derive(Debug, PartialEq, Eq)]
pub enum GenericArgument {
    /// A type that is one bare identifier, such as `u32`.
    Ident(String),
    /// Anything else: a lifetime, a constant, a binding, or a type of
    /// another shape.
    Other,
}

pub enum GenericArgumentView {
    Ident(Seq<char>),
    Other,
}

impl View for GenericArgument {
    type V = GenericArgumentView;

    open spec fn view(&self) -> GenericArgumentView {
        match self {
            GenericArgument::Ident(name) => GenericArgumentView::Ident(name@),
            GenericArgument::Other => GenericArgumentView::Other,
        }
    }
}

/// The arguments of a path segment.
#[derive(Debug, PartialEq, Eq)]
pub enum ArgumentsShape {
    /// No arguments, as in `String`.
    Absent,
    /// Arguments in angle brackets, as in `Vec<u8>`.
    AngleBracketed(Vec<GenericArgument>),
    /// Arguments in parentheses, as in `Fn(u8) -> bool`.
    Parenthesized,
}

pub enum ArgumentsShapeView {
    Absent,
    AngleBracketed(Seq<GenericArgumentView>),
    Parenthesized,
}

impl View for ArgumentsShape {
    type V = ArgumentsShapeView;

    open spec fn view(&self) -> ArgumentsShapeView {
        match self {
            ArgumentsShape::Absent => ArgumentsShapeView::Absent,
            ArgumentsShape::AngleBracketed(args) => ArgumentsShapeView::AngleBracketed(views(args@)),
            ArgumentsShape::Parenthesized => ArgumentsShapeView::Parenthesized,
        }
    }
}

/// One segment of a path: an identifier and its arguments.
#[derive(Debug, PartialEq, Eq)]
pub struct PathSegment {
    pub ident: String,
    pub arguments: ArgumentsShape,
}

pub struct PathSegmentView {
    pub ident: Seq<char>,
    pub arguments: ArgumentsShapeView,
}

impl View for PathSegment {
    type V = PathSegmentView;

    open spec fn view(&self) -> PathSegmentView {
        PathSegmentView { ident: self.ident@, arguments: self.arguments@ }
    }
}

/// A path such as `std::result::Result<T, E>`.
#[derive(Debug, PartialEq, Eq)]
pub struct PathShape {
    /// Whether the path starts with `::`.
    pub leading_colon: bool,
    pub segments: Vec<PathSegment>,
}

pub struct PathShapeView {
    pub leading_colon: bool,
    pub segments: Seq<PathSegmentView>,
}

impl View for PathShape {
    type V = PathShapeView;

    open spec fn view(&self) -> PathShapeView {
        PathShapeView { leading_colon: self.leading_colon, segments: views(self.segments@) }
    }
}

/// One item of the parenthesised list of an attribute such as `cfg(test)`.
#[derive(Debug, PartialEq, Eq)]
pub enum NestedMeta {
    /// A path alone, as `test` in `cfg(test)`.
    Path(PathShape),
    /// Anything else: a literal, a nested list, or a name with a value.
    Other,
}

pub enum NestedMetaView {
    Path(PathShapeView),
    Other,
}

impl View for NestedMeta {
    type V = NestedMetaView;

    open spec fn view(&self) -> NestedMetaView {
        match self {
            NestedMeta::Path(path) => NestedMetaView::Path(path@),
            NestedMeta::Other => NestedMetaView::Other,
        }
    }
}

/// An attribute such as `#[test]` or `#[cfg(test)]`.
#[derive(Debug, PartialEq, Eq)]
pub struct AttributeShape {
    pub path: PathShape,
    /// The items of the attribute's list, as in `cfg(test)`. A tree that is
    /// read from source has them only where the path is `cfg` and the
    /// attribute is a well-formed list, and `None` for every other attribute.
    pub nested: Option<Vec<NestedMeta>>,
}

pub struct AttributeShapeView {
    pub path: PathShapeView,
    pub nested: Option<Seq<NestedMetaView>>,
}

impl View for AttributeShape {
    type V = AttributeShapeView;

    open spec fn view(&self) -> AttributeShapeView {
        AttributeShapeView {
            path: self.path@,
            nested: match self.nested {
                Some(items) => Some(views(items@)),
                None => None,
            },
        }
    }
}

/// A type as it stands behind the arrow of a function.
#[derive(Debug, PartialEq, Eq)]
pub struct TypeShape {
    /// The type's tokens as a token stream displays them: with a space
    /// between two tokens, but none after a punctuation character that is
    /// joined to the next, as in `Vec < & 'a std :: string :: String >`.
    pub tokens: String,
    /// The type's path, if the type is a path; `None` for a reference, a
    /// tuple, or any other shape.
    pub path: Option<PathShape>,
}

pub struct TypeShapeView {
    pub tokens: Seq<char>,
    pub path: Option<PathShapeView>,
}

impl View for TypeShape {
    type V = TypeShapeView;

    open spec fn view(&self) -> TypeShapeView {
        TypeShapeView { tokens: self.tokens@, path: option_view(self.path) }
    }
}

/// The return type of a function.
#[derive(Debug, PartialEq, Eq)]
pub enum ReturnShape {
    /// None is written: the function returns `()`.
    Default,
    /// The type behind the arrow.
    Type(TypeShape),
}

pub enum ReturnShapeView {
    Default,
    Type(TypeShapeView),
}

impl View for ReturnShape {
    type V = ReturnShapeView;

    open spec fn view(&self) -> ReturnShapeView {
        match self {
            ReturnShape::Default => ReturnShapeView::Default,
            ReturnShape::Type(ty) => ReturnShapeView::Type(ty@),
        }
    }
}

/// The body of a function: a block in braces.
#[derive(Debug, PartialEq, Eq)]
pub struct BlockShape {
    /// How many statements the block holds.
    pub statements: usize,
    /// Where the braces stand.
    pub span: Span,
}

impl View for BlockShape {
    type V = BlockShape;

    open spec fn view(&self) -> BlockShape {
        *self
    }
}

/// A function: a free function, or a method of an impl block.
#[derive(Debug, PartialEq, Eq)]
pub struct Function {
    pub attrs: Vec<AttributeShape>,
    /// The function's identifier.
    pub name: String,
    pub output: ReturnShape,
    pub block: BlockShape,
    /// The functions, impl blocks and modules nested in the function's
    /// signature and body, in source order.
    pub items: Vec<Node>,
}

/// An impl block, `impl Type { .. }` or `impl Trait for Type { .. }`.
#[derive(Debug, PartialEq, Eq)]
pub struct Impl {
    pub attrs: Vec<AttributeShape>,
    /// The path of the implemented trait, if there is one.
    pub trait_path: Option<PathShape>,
    /// The tokens of the implementing type as a token stream displays them:
    /// with a space between two tokens, but none after a punctuation
    /// character that is joined to the next.
    pub self_ty: String,
    /// The functions, impl blocks and modules nested in the block, in source
    /// order.
    pub items: Vec<Node>,
}

/// A module, `mod name { .. }` or `mod name;`.
#[derive(Debug, PartialEq, Eq)]
pub struct Module {
    pub attrs: Vec<AttributeShape>,
    /// The module's identifier.
    pub name: String,
    /// The functions, impl blocks and modules nested in the module, in source
    /// order.
    pub items: Vec<Node>,
}

/// A scope that the discovery walk tells apart.
#[derive(Debug, PartialEq, Eq)]
pub enum Node {
    /// A free function.
    Fn(Function),
    /// A method of an impl block.
    Method(Function),
    Impl(Impl),
    Mod(Module),
}

pub struct FunctionView {
    pub attrs: Seq<AttributeShapeView>,
    pub name: Seq<char>,
    pub output: ReturnShapeView,
    pub block: BlockShape,
    pub items: Seq<NodeView>,
}

pub struct ImplView {
    pub attrs: Seq<AttributeShapeView>,
    pub trait_path: Option<PathShapeView>,
    pub self_ty: Seq<char>,
    pub items: Seq<NodeView>,
}

pub struct ModuleView {
    pub attrs: Seq<AttributeShapeView>,
    pub name: Seq<char>,
    pub items: Seq<NodeView>,
}

pub enum NodeView {
    Fn(FunctionView),
    Method(FunctionView),
    Impl(ImplView),
    Mod(ModuleView),
}

/// The view of a function, with the views of all that is nested in it.
pub open spec fn function_view(f: Function) -> FunctionView
    decreases f,
{
    FunctionView {
        attrs: views(f.attrs@),
        name: f.name@,
        output: f.output@,
        block: f.block,
        items: node_views(f.items@),
    }
}

/// The view of an impl block, with the views of all that is nested in it.
pub open spec fn impl_view(i: Impl) -> ImplView
    decreases i,
{
    ImplView {
        attrs: views(i.attrs@),
        trait_path: option_view(i.trait_path),
        self_ty: i.self_ty@,
        items: node_views(i.items@),
    }
}

/// The view of a module, with the views of all that is nested in it.
pub open spec fn module_view(m: Module) -> ModuleView
    decreases m,
{
    ModuleView { attrs: views(m.attrs@), name: m.name@, items: node_views(m.items@) }
}

/// The view of a node, with the views of all that is nested in it.
pub open spec fn node_view(node: Node) -> NodeView
    decreases node,
{
    match node {
        Node::Fn(f) => NodeView::Fn(function_view(f)),
        Node::Method(f) => NodeView::Method(function_view(f)),
        Node::Impl(i) => NodeView::Impl(impl_view(i)),
        Node::Mod(m) => NodeView::Mod(module_view(m)),
    }
}

/// The views of a sequence of nodes.
pub open spec fn node_views(nodes: Seq<Node>) -> Seq<NodeView>
    decreases nodes,
{
    if nodes.len() == 0 {
        Seq::empty()
    } else {
        node_views(nodes.drop_last()).push(node_view(nodes.last()))
    }
}

/// `node_views` keeps the length and views node by node.
pub proof fn lemma_node_views(nodes: Seq<Node>)
    ensures
        node_views(nodes).len() == nodes.len(),
        forall|k: int| 0 <= k < nodes.len() ==> #[trigger] node_views(nodes)[k] == node_view(nodes[k]),
    decreases nodes.len(),
{
    if nodes.len() > 0 {
        lemma_node_views(nodes.drop_last());
    }
}

impl View for Function {
    type V = FunctionView;

    open spec fn view(&self) -> FunctionView {
        function_view(*self)
    }
}

impl View for Impl {
    type V = ImplView;

    open spec fn view(&self) -> ImplView {
        impl_view(*self)
    }
}

impl View for Module {
    type V = ModuleView;

    open spec fn view(&self) -> ModuleView {
        module_view(*self)
    }
}

impl View for Node {
    type V = NodeView;

    open spec fn view(&self) -> NodeView {
        node_view(*self)
    }
}

} // verus!
