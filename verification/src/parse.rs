//! Reading Rust source with `syn`.
//!
//! This module is the only one that names `syn`, `quote` and `proc_macro2`. What it
//! hands to the rest of the library is the plain syntax model of
//! [`crate::syntax`].

use vstd::prelude::*;

use crate::source::{one_based, LineColumn, Span};
use crate::syntax::{
    lemma_node_views, node_views, views, ArgumentsShape, ArgumentsShapeView, AttributeShape,
    AttributeShapeView, BlockShape, Function, FunctionView, GenericArgument, GenericArgumentView,
    Impl, Module, NestedMeta, NestedMetaView, Node, NodeView, PathSegment, PathSegmentView,
    PathShape, PathShapeView, ReturnShape, ReturnShapeView, TypeShape, TypeShapeView,
};
use crate::visit::{is_ident, path_is_ident};

verus! {

// The types of `syn` and `proc_macro2` that pass through this module. Nothing
// is known of what they hold but what the functions below read from them.

#[verifier::external_type_specification]
#[verifier::external_body]
pub struct ExSynFile(syn::File);

#[verifier::external_type_specification]
#[verifier::external_body]
pub struct ExSynItemFn(syn::ItemFn);

#[verifier::external_type_specification]
#[verifier::external_body]
pub struct ExSynImplItemMethod(syn::ImplItemMethod);

#[verifier::external_type_specification]
#[verifier::external_body]
pub struct ExSynItemImpl(syn::ItemImpl);

#[verifier::external_type_specification]
#[verifier::external_body]
pub struct ExSynItemMod(syn::ItemMod);

#[verifier::external_type_specification]
#[verifier::external_body]
pub struct ExSynAttribute(syn::Attribute);

#[verifier::external_type_specification]
#[verifier::external_body]
pub struct ExSynReturnType(syn::ReturnType);

#[verifier::external_type_specification]
#[verifier::external_body]
pub struct ExSynBlock(syn::Block);

#[verifier::external_type_specification]
#[verifier::external_body]
pub struct ExSynType(syn::Type);

#[verifier::external_type_specification]
#[verifier::external_body]
pub struct ExSynPath(syn::Path);

#[verifier::external_type_specification]
#[verifier::external_body]
pub struct ExSynPathArguments(syn::PathArguments);

#[verifier::external_type_specification]
#[verifier::external_body]
pub struct ExIdent(proc_macro2::Ident);

#[verifier::external_type_specification]
#[verifier::external_body]
pub struct ExSynExpr(syn::Expr);

#[verifier::external_type_specification]
#[verifier::external_body]
pub struct ExSynError(syn::Error);

/// What `syn::parse_str::<syn::Expr>` gives for a text.
pub uninterp spec fn parsed_expression(text: Seq<char>) -> Result<syn::Expr, syn::Error>;

/// The message that a `syn::Error` displays.
pub uninterp spec fn error_text(e: syn::Error) -> Seq<char>;

/// `syn::parse_str::<syn::Expr>`: parses `text` as one Rust expression, which
/// must take up the whole text. The result depends on the text alone. The
/// call returns for every text: the lexer of `proc_macro2` that this crate
/// is built with yields no literal but a string, byte string, byte,
/// character, integer or float, and checks each as `syn` then reads it.
#[verifier::external_body]
pub(crate) fn parse_expression(text: &str) -> (r: Result<syn::Expr, syn::Error>)
    ensures
        r == parsed_expression(text@),
{
    syn::parse_str::<syn::Expr>(text)
}

/// `syn::Error`'s `Display`: the message of a parse error.
#[verifier::external_body]
pub(crate) fn error_message(e: &syn::Error) -> (r: String)
    ensures
        r@ == error_text(*e),
{
    e.to_string()
}

/// The text of an identifier.
pub uninterp spec fn ident_text(ident: proc_macro2::Ident) -> Seq<char>;

/// Whether a path starts with `::`.
pub uninterp spec fn path_leading_colon(path: syn::Path) -> bool;

/// The segments of a path, each as its identifier and its arguments.
pub uninterp spec fn path_segments(path: syn::Path) -> Seq<
    (&'static proc_macro2::Ident, &'static syn::PathArguments),
>;

/// Whether a segment has no arguments at all.
pub uninterp spec fn arguments_absent(arguments: syn::PathArguments) -> bool;

/// The arguments of a segment that stand in angle brackets, each as its type
/// where it is one; `None` for a segment without angle brackets.
pub uninterp spec fn arguments_types(arguments: syn::PathArguments) -> Option<
    Seq<Option<&'static syn::Type>>,
>;

/// The path of a type that is a path.
pub uninterp spec fn type_path(ty: syn::Type) -> Option<&'static syn::Path>;

/// `proc_macro2::Ident`'s `Display`: the identifier as it is written.
#[verifier::external_body]
pub(crate) fn read_ident(ident: &proc_macro2::Ident) -> (r: String)
    ensures
        r@ == ident_text(*ident),
{
    ident.to_string()
}

/// The field `leading_colon` of a `syn::Path`: whether it is there.
#[verifier::external_body]
pub(crate) fn read_leading_colon(path: &syn::Path) -> (r: bool)
    ensures
        r == path_leading_colon(*path),
{
    path.leading_colon.is_some()
}

/// The field `segments` of a `syn::Path`, walked in order: of each segment
/// its fields `ident` and `arguments`.
#[verifier::external_body]
pub(crate) fn read_segments<'a>(path: &'a syn::Path) -> (r: Vec<
    (&'a proc_macro2::Ident, &'a syn::PathArguments),
>)
    ensures
        r@ == path_segments(*path),
{
    path.segments.iter().map(|segment| (&segment.ident, &segment.arguments)).collect()
}

/// `syn::PathArguments::is_none`: true of the variant `None` alone.
#[verifier::external_body]
pub(crate) fn read_arguments_absent(arguments: &syn::PathArguments) -> (r: bool)
    ensures
        r == arguments_absent(*arguments),
{
    arguments.is_none()
}

/// The arguments of the variant `AngleBracketed` of `syn::PathArguments`,
/// walked in order: of each the type, where it is of the variant `Type`.
#[verifier::external_body]
pub(crate) fn read_arguments_types<'a>(arguments: &'a syn::PathArguments) -> (r: Option<
    Vec<Option<&'a syn::Type>>,
>)
    ensures
        match r {
            Some(types) => arguments_types(*arguments) == Some(types@),
            None => arguments_types(*arguments) is None,
        },
{
    match arguments {
        syn::PathArguments::AngleBracketed(bracketed) => Some(
            bracketed.args.iter().map(
                |argument|
                    match argument {
                        syn::GenericArgument::Type(ty) => Some(ty),
                        _ => None,
                    },
            ).collect(),
        ),
        _ => None,
    }
}

/// The path of a `syn::Type` of the variant `Path`.
#[verifier::external_body]
pub(crate) fn read_type_path<'a>(ty: &'a syn::Type) -> (r: Option<&'a syn::Path>)
    ensures
        r == type_path(*ty),
{
    match ty {
        syn::Type::Path(type_path) => Some(&type_path.path),
        _ => None,
    }
}

/// The model of one generic argument, given its type where it is one: the
/// identifier, if the type is a path that is one bare identifier.
pub open spec fn argument_of(ty: Option<&syn::Type>) -> GenericArgumentView {
    match ty {
        Some(ty) => match type_path(*ty) {
            Some(path) => if !path_leading_colon(*path) && path_segments(*path).len() == 1
                && arguments_absent(*path_segments(*path)[0].1) {
                GenericArgumentView::Ident(ident_text(*path_segments(*path)[0].0))
            } else {
                GenericArgumentView::Other
            },
            None => GenericArgumentView::Other,
        },
        None => GenericArgumentView::Other,
    }
}

/// The model of the arguments of a segment.
pub open spec fn arguments_of(arguments: syn::PathArguments) -> ArgumentsShapeView {
    if arguments_absent(arguments) {
        ArgumentsShapeView::Absent
    } else {
        match arguments_types(arguments) {
            Some(types) => ArgumentsShapeView::AngleBracketed(
                types.map_values(|ty: Option<&syn::Type>| argument_of(ty)),
            ),
            None => ArgumentsShapeView::Parenthesized,
        }
    }
}

/// The model of one segment.
pub open spec fn segment_of(
    segment: (&proc_macro2::Ident, &syn::PathArguments),
) -> PathSegmentView {
    PathSegmentView { ident: ident_text(*segment.0), arguments: arguments_of(*segment.1) }
}

/// The model of a path.
pub open spec fn path_of(path: syn::Path) -> PathShapeView {
    PathShapeView {
        leading_colon: path_leading_colon(path),
        segments: path_segments(path).map_values(
            |segment: (&proc_macro2::Ident, &syn::PathArguments)| segment_of(segment),
        ),
    }
}

/// Read one generic argument into the model.
fn lower_argument(ty: Option<&syn::Type>) -> (r: GenericArgument)
    ensures
        r@ == argument_of(ty),
{
    if let Some(ty) = ty {
        if let Some(path) = read_type_path(ty) {
            if !read_leading_colon(path) {
                let segments = read_segments(path);
                if segments.len() == 1 && read_arguments_absent(segments[0].1) {
                    return GenericArgument::Ident(read_ident(segments[0].0));
                }
            }
        }
    }
    GenericArgument::Other
}

/// Read the arguments of a segment into the model.
fn lower_arguments(arguments: &syn::PathArguments) -> (r: ArgumentsShape)
    ensures
        r@ == arguments_of(*arguments),
{
    if read_arguments_absent(arguments) {
        return ArgumentsShape::Absent;
    }
    match read_arguments_types(arguments) {
        Some(types) => {
            let ghost target = types@.map_values(|ty: Option<&syn::Type>| argument_of(ty));
            let mut out: Vec<GenericArgument> = Vec::new();
            let mut k: usize = 0;
            while k < types.len()
                invariant
                    k <= types.len(),
                    target == types@.map_values(|ty: Option<&syn::Type>| argument_of(ty)),
                    views(out@) == target.take(k as int),
                decreases types.len() - k,
            {
                let item = lower_argument(types[k]);
                let ghost before = out@;
                out.push(item);
                assert(views(out@) =~= views(before).push(item@));
                assert(target.take(k + 1) =~= target.take(k as int).push(target[k as int]));
                k += 1;
            }
            assert(target.take(k as int) =~= target);
            ArgumentsShape::AngleBracketed(out)
        },
        None => ArgumentsShape::Parenthesized,
    }
}

/// Read a path into the model: whether it has a leading colon, and of each
/// segment the identifier and the arguments.
pub fn lower_path(path: &syn::Path) -> (r: PathShape)
    ensures
        r@ == path_of(*path),
{
    let segments = read_segments(path);
    let ghost target = path_of(*path).segments;
    let mut out: Vec<PathSegment> = Vec::new();
    let mut k: usize = 0;
    while k < segments.len()
        invariant
            k <= segments.len(),
            segments@ == path_segments(*path),
            target == path_of(*path).segments,
            views(out@) == target.take(k as int),
        decreases segments.len() - k,
    {
        let item = PathSegment {
            ident: read_ident(segments[k].0),
            arguments: lower_arguments(segments[k].1),
        };
        let ghost before = out@;
        out.push(item);
        assert(views(out@) =~= views(before).push(item@));
        assert(target.take(k + 1) =~= target.take(k as int).push(target[k as int]));
        k += 1;
    }
    assert(target.take(k as int) =~= target);
    PathShape { leading_colon: read_leading_colon(path), segments: out }
}

/// The path of an attribute.
pub uninterp spec fn attribute_path(attr: syn::Attribute) -> syn::Path;

/// The items of an attribute's list, each as its path where it is a path
/// alone; `None` for an attribute that is no well-formed list.
pub uninterp spec fn attribute_nested(attr: syn::Attribute) -> Option<Seq<Option<syn::Path>>>;

/// The type behind the arrow of a return type, if one is written.
pub uninterp spec fn return_type_type(return_type: syn::ReturnType) -> Option<&'static syn::Type>;

/// The tokens of a type as `proc_macro2` displays them: with a space between
/// two tokens, but none after a punctuation character that is joined to the
/// next, so that `::`, `->` and `'a` stay together.
pub uninterp spec fn type_tokens(ty: syn::Type) -> Seq<char>;

/// How many statements a block holds.
pub uninterp spec fn block_statements(block: syn::Block) -> usize;

/// Line, counted from 1, and column, counted from 0, of a block's opening
/// brace.
pub uninterp spec fn block_start(block: syn::Block) -> (usize, usize);

/// Line, counted from 1, and column, counted from 0, of the position after a
/// block's closing brace.
pub uninterp spec fn block_end(block: syn::Block) -> (usize, usize);

/// The field `path` of a `syn::Attribute`.
#[verifier::external_body]
pub(crate) fn read_attribute_path<'a>(attr: &'a syn::Attribute) -> (r: &'a syn::Path)
    ensures
        *r == attribute_path(*attr),
{
    &attr.path
}

/// `syn::Attribute::parse_meta`: where it gives a `Meta::List`, the items of
/// the list in order, each as its path where it is a `Meta::Path`; `None`
/// where it gives another kind of meta or returns an error. It parses the
/// attribute's tokens, and like the parsing of a file it returns whatever
/// literals they hold.
#[verifier::external_body]
pub(crate) fn read_attribute_nested(attr: &syn::Attribute) -> (r: Option<Vec<Option<syn::Path>>>)
    ensures
        match r {
            Some(items) => attribute_nested(*attr) == Some(items@),
            None => attribute_nested(*attr) is None,
        },
{
    match attr.parse_meta() {
        Ok(syn::Meta::List(list)) => Some(
            list.nested.into_iter().map(
                |item|
                    match item {
                        syn::NestedMeta::Meta(syn::Meta::Path(path)) => Some(path),
                        _ => None,
                    },
            ).collect(),
        ),
        _ => None,
    }
}

/// The type held by the variant `Type` of a `syn::ReturnType`.
#[verifier::external_body]
pub(crate) fn read_return_type<'a>(return_type: &'a syn::ReturnType) -> (r: Option<&'a syn::Type>)
    ensures
        r == return_type_type(*return_type),
{
    match return_type {
        syn::ReturnType::Type(_, ty) => Some(&**ty),
        syn::ReturnType::Default => None,
    }
}

/// `quote::ToTokens::to_token_stream` and the `Display` of the token stream:
/// the tokens of a type, with a space between two tokens, but none after a
/// punctuation character that is joined to the next.
#[verifier::external_body]
pub(crate) fn type_name_string(ty: &syn::Type) -> (r: String)
    ensures
        r@ == type_tokens(*ty),
{
    quote::ToTokens::to_token_stream(ty).to_string()
}

/// The length of the field `stmts` of a `syn::Block`.
#[verifier::external_body]
pub(crate) fn read_block_statements(block: &syn::Block) -> (r: usize)
    ensures
        r == block_statements(*block),
{
    block.stmts.len()
}

/// `proc_macro2::Span::start` of the braces of a `syn::Block`: line and
/// column, as `proc_macro2` counts them in the text that the block was
/// parsed from.
#[verifier::external_body]
pub(crate) fn read_block_start(block: &syn::Block) -> (r: (usize, usize))
    ensures
        r == block_start(*block),
{
    let at = block.brace_token.span.start();
    (at.line, at.column)
}

/// `proc_macro2::Span::end` of the braces of a `syn::Block`: line and
/// column, as `proc_macro2` counts them in the text that the block was
/// parsed from.
#[verifier::external_body]
pub(crate) fn read_block_end(block: &syn::Block) -> (r: (usize, usize))
    ensures
        r == block_end(*block),
{
    let at = block.brace_token.span.end();
    (at.line, at.column)
}

/// The model of one item of an attribute's list.
pub open spec fn nested_of(item: Option<syn::Path>) -> NestedMetaView {
    match item {
        Some(path) => NestedMetaView::Path(path_of(path)),
        None => NestedMetaView::Other,
    }
}

/// The model of the list of an attribute, if the attribute is a well-formed
/// list.
pub open spec fn nested_list_of(attr: syn::Attribute) -> Option<Seq<NestedMetaView>> {
    match attribute_nested(attr) {
        Some(items) => Some(items.map_values(|item: Option<syn::Path>| nested_of(item))),
        None => None,
    }
}

/// The model of an attribute: its path, and its list if the path is `cfg`.
/// The list of any other attribute is not looked at.
pub open spec fn attribute_of(attr: syn::Attribute) -> AttributeShapeView {
    let path = path_of(attribute_path(attr));
    AttributeShapeView {
        path,
        nested: if is_ident(path, "cfg"@) {
            nested_list_of(attr)
        } else {
            None
        },
    }
}

/// The models of a sequence of attributes.
pub open spec fn attributes_of(attrs: Seq<syn::Attribute>) -> Seq<AttributeShapeView> {
    attrs.map_values(|attr: syn::Attribute| attribute_of(attr))
}

/// The model of a return type.
pub open spec fn return_type_of(return_type: syn::ReturnType) -> ReturnShapeView {
    match return_type_type(return_type) {
        Some(ty) => ReturnShapeView::Type(
            TypeShapeView {
                tokens: type_tokens(*ty),
                path: match type_path(*ty) {
                    Some(path) => Some(path_of(*path)),
                    None => None,
                },
            },
        ),
        None => ReturnShapeView::Default,
    }
}

/// The model of a function's body.
pub open spec fn block_of(block: syn::Block) -> BlockShape {
    BlockShape {
        statements: block_statements(block),
        span: Span {
            start: LineColumn {
                line: block_start(block).0,
                column: one_based(block_start(block).1),
            },
            end: LineColumn { line: block_end(block).0, column: one_based(block_end(block).1) },
        },
    }
}

/// Read the list of an attribute into the model, if the attribute is a
/// well-formed list.
fn lower_nested(attr: &syn::Attribute) -> (r: Option<Vec<NestedMeta>>)
    ensures
        match r {
            Some(items) => nested_list_of(*attr) == Some(views(items@)),
            None => nested_list_of(*attr) is None,
        },
{
    match read_attribute_nested(attr) {
        Some(items) => {
            let ghost target = items@.map_values(|item: Option<syn::Path>| nested_of(item));
            let mut out: Vec<NestedMeta> = Vec::new();
            let mut k: usize = 0;
            while k < items.len()
                invariant
                    k <= items.len(),
                    target == items@.map_values(|item: Option<syn::Path>| nested_of(item)),
                    views(out@) == target.take(k as int),
                decreases items.len() - k,
            {
                let item = match &items[k] {
                    Some(path) => NestedMeta::Path(lower_path(path)),
                    None => NestedMeta::Other,
                };
                let ghost before = out@;
                out.push(item);
                assert(views(out@) =~= views(before).push(item@));
                assert(target.take(k + 1) =~= target.take(k as int).push(target[k as int]));
                k += 1;
            }
            assert(target.take(k as int) =~= target);
            Some(out)
        },
        None => None,
    }
}

/// Read an attribute into the model: its path, and its list if the path is
/// `cfg`.
fn lower_attribute(attr: &syn::Attribute) -> (r: AttributeShape)
    ensures
        r@ == attribute_of(*attr),
{
    let path = lower_path(read_attribute_path(attr));
    let nested = if path_is_ident(&path, "cfg") {
        lower_nested(attr)
    } else {
        None
    };
    AttributeShape { path, nested }
}

/// Read the attributes of an item into the model, in order.
fn lower_attributes(attrs: &Vec<syn::Attribute>) -> (r: Vec<AttributeShape>)
    ensures
        views(r@) == attributes_of(attrs@),
{
    let ghost target = attributes_of(attrs@);
    let mut out: Vec<AttributeShape> = Vec::new();
    let mut k: usize = 0;
    while k < attrs.len()
        invariant
            k <= attrs.len(),
            target == attributes_of(attrs@),
            views(out@) == target.take(k as int),
        decreases attrs.len() - k,
    {
        let item = lower_attribute(&attrs[k]);
        let ghost before = out@;
        out.push(item);
        assert(views(out@) =~= views(before).push(item@));
        assert(target.take(k + 1) =~= target.take(k as int).push(target[k as int]));
        k += 1;
    }
    assert(target.take(k as int) =~= target);
    out
}

/// Read a return type into the model.
fn lower_return_type(return_type: &syn::ReturnType) -> (r: ReturnShape)
    ensures
        r@ == return_type_of(*return_type),
{
    match read_return_type(return_type) {
        Some(ty) => {
            let path = match read_type_path(ty) {
                Some(path) => Some(lower_path(path)),
                None => None,
            };
            ReturnShape::Type(TypeShape { tokens: type_name_string(ty), path })
        },
        None => ReturnShape::Default,
    }
}

/// Read the body of a function into the model.
fn lower_block(block: &syn::Block) -> (r: BlockShape)
    ensures
        r == block_of(*block),
{
    let start = read_block_start(block);
    let end = read_block_end(block);
    BlockShape {
        statements: read_block_statements(block),
        span: Span::new(
            LineColumn::from_zero_based_column(start.0, start.1),
            LineColumn::from_zero_based_column(end.0, end.1),
        ),
    }
}

/// A scope of a parsed file that the discovery walk tells apart: the parts of
/// it that the walk reads, and the item itself, in which nested scopes are
/// looked for.
#[allow(inconsistent_fields)]
pub enum ScopeRef<'a> {
    /// A free function, `syn::ItemFn`.
    Fn {
        attrs: &'a Vec<syn::Attribute>,
        ident: &'a proc_macro2::Ident,
        output: &'a syn::ReturnType,
        block: &'a syn::Block,
        item: &'a syn::ItemFn,
    },
    /// A method of an impl block, `syn::ImplItemMethod`.
    Method {
        attrs: &'a Vec<syn::Attribute>,
        ident: &'a proc_macro2::Ident,
        output: &'a syn::ReturnType,
        block: &'a syn::Block,
        item: &'a syn::ImplItemMethod,
    },
    /// An impl block, `syn::ItemImpl`.
    Impl {
        attrs: &'a Vec<syn::Attribute>,
        trait_path: Option<&'a syn::Path>,
        self_ty: &'a syn::Type,
        item: &'a syn::ItemImpl,
    },
    /// A module, `syn::ItemMod`.
    Mod { attrs: &'a Vec<syn::Attribute>, ident: &'a proc_macro2::Ident, item: &'a syn::ItemMod },
}

/// Gathers the scopes that `syn`'s walk of a syntax tree comes to first: it
/// notes each function, method, impl block and module, and does not walk into
/// them.
pub struct ScopeCollector<'a> {
    pub found: Vec<ScopeRef<'a>>,
}

impl<'ast> syn::visit::Visit<'ast> for ScopeCollector<'ast> {
    /// Notes a free function with the fields that discovery reads.
    #[verifier::external_body]
    fn visit_item_fn(&mut self, i: &'ast syn::ItemFn) {
        self.found.push(
            ScopeRef::Fn {
                attrs: &i.attrs,
                ident: &i.sig.ident,
                output: &i.sig.output,
                block: &i.block,
                item: i,
            },
        );
    }

    /// Notes a method with the fields that discovery reads.
    #[verifier::external_body]
    fn visit_impl_item_method(&mut self, i: &'ast syn::ImplItemMethod) {
        self.found.push(
            ScopeRef::Method {
                attrs: &i.attrs,
                ident: &i.sig.ident,
                output: &i.sig.output,
                block: &i.block,
                item: i,
            },
        );
    }

    /// Notes an impl block with the fields that discovery reads.
    #[verifier::external_body]
    fn visit_item_impl(&mut self, i: &'ast syn::ItemImpl) {
        self.found.push(
            ScopeRef::Impl {
                attrs: &i.attrs,
                trait_path: i.trait_.as_ref().map(|implemented| &implemented.1),
                self_ty: &i.self_ty,
                item: i,
            },
        );
    }

    /// Notes a module with the fields that discovery reads.
    #[verifier::external_body]
    fn visit_item_mod(&mut self, i: &'ast syn::ItemMod) {
        self.found.push(ScopeRef::Mod { attrs: &i.attrs, ident: &i.ident, item: i });
    }
}

/// What `syn::parse_str::<syn::File>` gives for a text.
pub uninterp spec fn parsed_file(code: Seq<char>) -> Result<syn::File, syn::Error>;

/// The scopes that the walk of a file comes to first, in source order.
pub uninterp spec fn nested_in_file(file: syn::File) -> Seq<ScopeRef<'static>>;

/// The scopes that the walk of a free function comes to first, in source
/// order.
pub uninterp spec fn nested_in_fn(item: syn::ItemFn) -> Seq<ScopeRef<'static>>;

/// The scopes that the walk of a method comes to first, in source order.
pub uninterp spec fn nested_in_method(item: syn::ImplItemMethod) -> Seq<ScopeRef<'static>>;

/// The scopes that the walk of an impl block comes to first, in source order.
pub uninterp spec fn nested_in_impl(item: syn::ItemImpl) -> Seq<ScopeRef<'static>>;

/// The scopes that the walk of a module comes to first, in source order.
pub uninterp spec fn nested_in_mod(item: syn::ItemMod) -> Seq<ScopeRef<'static>>;

/// How deep scopes are nested in a free function: more than in any scope
/// nested in it.
pub uninterp spec fn fn_depth(item: syn::ItemFn) -> nat;

/// How deep scopes are nested in a method.
pub uninterp spec fn method_depth(item: syn::ImplItemMethod) -> nat;

/// How deep scopes are nested in an impl block.
pub uninterp spec fn impl_depth(item: syn::ItemImpl) -> nat;

/// How deep scopes are nested in a module.
pub uninterp spec fn mod_depth(item: syn::ItemMod) -> nat;

/// How deep scopes are nested in a scope.
pub open spec fn scope_depth(scope: ScopeRef) -> nat {
    match scope {
        ScopeRef::Fn { item, .. } => fn_depth(*item),
        ScopeRef::Method { item, .. } => method_depth(*item),
        ScopeRef::Impl { item, .. } => impl_depth(*item),
        ScopeRef::Mod { item, .. } => mod_depth(*item),
    }
}

/// Every scope of `scopes` is nested less deep than `bound`.
pub open spec fn all_shallower(scopes: Seq<ScopeRef>, bound: nat) -> bool {
    forall|k: int| 0 <= k < scopes.len() ==> scope_depth(#[trigger] scopes[k]) < bound
}

/// `syn::parse_str::<syn::File>`: parses `code` as the text of a source
/// file. The result depends on the text alone: the same text gives the same
/// tree, with the same lines and columns. As with an expression, the call
/// returns for every text, whatever literals it holds. `syn` recurses as
/// deep as the text nests, and `proc_macro2` numbers the characters that a
/// thread has parsed with 32 bits; a text beyond what the stack or those
/// numbers hold is not handled.
#[verifier::external_body]
pub(crate) fn parse_file(code: &str) -> (r: Result<syn::File, syn::Error>)
    ensures
        r == parsed_file(code@),
{
    syn::parse_str::<syn::File>(code)
}

/// `syn::visit::visit_file` with a [`ScopeCollector`]: the scopes that the
/// walk of the file comes to first, in source order.
#[verifier::external_body]
pub(crate) fn read_file_scopes<'a>(file: &'a syn::File) -> (r: Vec<ScopeRef<'a>>)
    ensures
        r@ == nested_in_file(*file),
{
    let mut collector = ScopeCollector { found: Vec::new() };
    syn::visit::visit_file(&mut collector, file);
    collector.found
}

/// `syn::visit::visit_item_fn` with a [`ScopeCollector`]: the scopes that the
/// walk of the function comes to first, in source order. Each is a part of
/// the function, so scopes are nested less deep in it.
#[verifier::external_body]
pub(crate) fn read_fn_scopes<'a>(item: &'a syn::ItemFn) -> (r: Vec<ScopeRef<'a>>)
    ensures
        r@ == nested_in_fn(*item),
        all_shallower(r@, fn_depth(*item)),
{
    let mut collector = ScopeCollector { found: Vec::new() };
    syn::visit::visit_item_fn(&mut collector, item);
    collector.found
}

/// `syn::visit::visit_impl_item_method` with a [`ScopeCollector`]: the scopes
/// that the walk of the method comes to first, in source order. Each is a
/// part of the method, so scopes are nested less deep in it.
#[verifier::external_body]
pub(crate) fn read_method_scopes<'a>(item: &'a syn::ImplItemMethod) -> (r: Vec<ScopeRef<'a>>)
    ensures
        r@ == nested_in_method(*item),
        all_shallower(r@, method_depth(*item)),
{
    let mut collector = ScopeCollector { found: Vec::new() };
    syn::visit::visit_impl_item_method(&mut collector, item);
    collector.found
}

/// `syn::visit::visit_item_impl` with a [`ScopeCollector`]: the scopes that
/// the walk of the impl block comes to first, in source order. Each is a part
/// of the block, so scopes are nested less deep in it.
#[verifier::external_body]
pub(crate) fn read_impl_scopes<'a>(item: &'a syn::ItemImpl) -> (r: Vec<ScopeRef<'a>>)
    ensures
        r@ == nested_in_impl(*item),
        all_shallower(r@, impl_depth(*item)),
{
    let mut collector = ScopeCollector { found: Vec::new() };
    syn::visit::visit_item_impl(&mut collector, item);
    collector.found
}

/// `syn::visit::visit_item_mod` with a [`ScopeCollector`]: the scopes that
/// the walk of the module comes to first, in source order. Each is a part of
/// the module, so scopes are nested less deep in it.
#[verifier::external_body]
pub(crate) fn read_mod_scopes<'a>(item: &'a syn::ItemMod) -> (r: Vec<ScopeRef<'a>>)
    ensures
        r@ == nested_in_mod(*item),
        all_shallower(r@, mod_depth(*item)),
{
    let mut collector = ScopeCollector { found: Vec::new() };
    syn::visit::visit_item_mod(&mut collector, item);
    collector.found
}

/// The model of a function whose parts are given is `f`, but for what is
/// nested in it.
pub open spec fn outlines_function(
    f: FunctionView,
    attrs: Seq<syn::Attribute>,
    ident: proc_macro2::Ident,
    output: syn::ReturnType,
    block: syn::Block,
) -> bool {
    &&& f.attrs == attributes_of(attrs)
    &&& f.name == ident_text(ident)
    &&& f.output == return_type_of(output)
    &&& f.block == block_of(block)
}

/// `node` is the model of `scope`: it holds what the parts of the scope
/// spell, and what is nested in it is the model of what the walk of the
/// scope's item comes to.
pub open spec fn outlines(node: NodeView, scope: ScopeRef) -> bool
    decreases node,
{
    match node {
        NodeView::Fn(f) => match scope {
            ScopeRef::Fn { attrs, ident, output, block, item } => outlines_function(
                f,
                attrs@,
                *ident,
                *output,
                *block,
            ) && outlines_all(f.items, nested_in_fn(*item)),
            _ => false,
        },
        NodeView::Method(f) => match scope {
            ScopeRef::Method { attrs, ident, output, block, item } => outlines_function(
                f,
                attrs@,
                *ident,
                *output,
                *block,
            ) && outlines_all(f.items, nested_in_method(*item)),
            _ => false,
        },
        NodeView::Impl(i) => match scope {
            ScopeRef::Impl { attrs, trait_path, self_ty, item } => {
                &&& i.attrs == attributes_of(attrs@)
                &&& i.trait_path == match trait_path {
                    Some(path) => Some(path_of(*path)),
                    None => None,
                }
                &&& i.self_ty == type_tokens(*self_ty)
                &&& outlines_all(i.items, nested_in_impl(*item))
            },
            _ => false,
        },
        NodeView::Mod(m) => match scope {
            ScopeRef::Mod { attrs, ident, item } => {
                &&& m.attrs == attributes_of(attrs@)
                &&& m.name == ident_text(*ident)
                &&& outlines_all(m.items, nested_in_mod(*item))
            },
            _ => false,
        },
    }
}

/// `nodes` are the models of `scopes`, one for one and in order.
pub open spec fn outlines_all(nodes: Seq<NodeView>, scopes: Seq<ScopeRef>) -> bool
    decreases nodes,
{
    &&& nodes.len() == scopes.len()
    &&& forall|k: int| 0 <= k < nodes.len() ==> outlines(#[trigger] nodes[k], scopes[k])
}

/// A scope has one model only.
pub proof fn lemma_outline_unique(a: NodeView, b: NodeView, scope: ScopeRef)
    requires
        outlines(a, scope),
        outlines(b, scope),
    ensures
        a == b,
    decreases a,
{
    match a {
        NodeView::Fn(f) => {
            let g = b->Fn_0;
            lemma_outlines_unique(f.items, g.items, nested_in_fn(*scope->Fn_item));
        },
        NodeView::Method(f) => {
            let g = b->Method_0;
            lemma_outlines_unique(f.items, g.items, nested_in_method(*scope->Method_item));
        },
        NodeView::Impl(i) => {
            let j = b->Impl_0;
            lemma_outlines_unique(i.items, j.items, nested_in_impl(*scope->Impl_item));
        },
        NodeView::Mod(m) => {
            let n = b->Mod_0;
            lemma_outlines_unique(m.items, n.items, nested_in_mod(*scope->Mod_item));
        },
    }
}

/// A sequence of scopes has one sequence of models only.
pub proof fn lemma_outlines_unique(a: Seq<NodeView>, b: Seq<NodeView>, scopes: Seq<ScopeRef>)
    requires
        outlines_all(a, scopes),
        outlines_all(b, scopes),
    ensures
        a == b,
    decreases a,
{
    assert forall|k: int| 0 <= k < a.len() implies a[k] == b[k] by {
        lemma_outline_unique(a[k], b[k], scopes[k]);
    }
    assert(a =~= b);
}

/// The outline of a parsed file: the models of the scopes that the walk of
/// the file comes to first, each with all that is nested in it.
pub open spec fn outline_of(file: syn::File) -> Seq<NodeView> {
    choose|nodes: Seq<NodeView>| outlines_all(nodes, nested_in_file(file))
}

/// Read a scope, with all that is nested in it, into the model.
fn lower_scope(scope: &ScopeRef) -> (r: Node)
    ensures
        outlines(r@, *scope),
    decreases scope_depth(*scope), 1nat,
{
    match scope {
        ScopeRef::Fn { attrs, ident, output, block, item } => {
            let items = lower_scopes(&read_fn_scopes(item), Ghost(fn_depth(**item)));
            Node::Fn(
                Function {
                    attrs: lower_attributes(attrs),
                    name: read_ident(ident),
                    output: lower_return_type(output),
                    block: lower_block(block),
                    items,
                },
            )
        },
        ScopeRef::Method { attrs, ident, output, block, item } => {
            let items = lower_scopes(&read_method_scopes(item), Ghost(method_depth(**item)));
            Node::Method(
                Function {
                    attrs: lower_attributes(attrs),
                    name: read_ident(ident),
                    output: lower_return_type(output),
                    block: lower_block(block),
                    items,
                },
            )
        },
        ScopeRef::Impl { attrs, trait_path, self_ty, item } => {
            let items = lower_scopes(&read_impl_scopes(item), Ghost(impl_depth(**item)));
            let trait_path = match trait_path {
                Some(path) => Some(lower_path(path)),
                None => None,
            };
            Node::Impl(
                Impl {
                    attrs: lower_attributes(attrs),
                    trait_path,
                    self_ty: type_name_string(self_ty),
                    items,
                },
            )
        },
        ScopeRef::Mod { attrs, ident, item } => {
            let items = lower_scopes(&read_mod_scopes(item), Ghost(mod_depth(**item)));
            Node::Mod(Module { attrs: lower_attributes(attrs), name: read_ident(ident), items })
        },
    }
}

/// Read sibling scopes, each with all that is nested in it, into the model.
/// `bound` is a depth that none of them reaches.
fn lower_scopes(scopes: &Vec<ScopeRef>, bound: Ghost<nat>) -> (r: Vec<Node>)
    requires
        all_shallower(scopes@, bound@),
    ensures
        outlines_all(node_views(r@), scopes@),
    decreases bound@, 0nat,
{
    let mut out: Vec<Node> = Vec::new();
    let mut k: usize = 0;
    while k < scopes.len()
        invariant
            k <= scopes.len(),
            all_shallower(scopes@, bound@),
            out@.len() == k,
            forall|j: int| 0 <= j < k ==> outlines(#[trigger] out@[j]@, scopes@[j]),
        decreases scopes.len() - k,
    {
        let node = lower_scope(&scopes[k]);
        out.push(node);
        k += 1;
    }
    proof {
        lemma_node_views(out@);
        assert forall|j: int| 0 <= j < out@.len() implies outlines(
            #[trigger] node_views(out@)[j],
            scopes@[j],
        ) by {
            assert(outlines(out@[j]@, scopes@[j]));
        }
    }
    out
}

/// A depth that none of `scopes` reaches.
pub open spec fn depth_above(scopes: Seq<ScopeRef>) -> nat
    decreases scopes.len(),
{
    if scopes.len() == 0 {
        0
    } else {
        let rest = depth_above(scopes.drop_last());
        let last = scope_depth(scopes.last()) + 1;
        if last > rest {
            last
        } else {
            rest
        }
    }
}

/// `depth_above` is such a depth.
pub proof fn lemma_depth_above(scopes: Seq<ScopeRef>)
    ensures
        all_shallower(scopes, depth_above(scopes)),
    decreases scopes.len(),
{
    if scopes.len() > 0 {
        lemma_depth_above(scopes.drop_last());
        assert forall|k: int| 0 <= k < scopes.len() implies scope_depth(#[trigger] scopes[k])
            < depth_above(scopes) by {
            if k < scopes.len() - 1 {
                assert(scopes.drop_last()[k] == scopes[k]);
            }
        }
    }
}

/// Why a source file could not be read: it is not syntactically valid Rust.
#[derive(Debug, PartialEq, Eq)]
pub struct ParseError {
    /// The parser's diagnostic.
    pub message: String,
}

impl View for ParseError {
    type V = Seq<char>;

    open spec fn view(&self) -> Seq<char> {
        self.message@
    }
}

impl ParseError {
    /// The parser's diagnostic.
    pub fn message(&self) -> (r: &str)
        ensures
            r@ == self@,
    {
        self.message.as_str()
    }
}

/// What reading a source text gives: the outline of the file that the text
/// parses to, or the parser's diagnostic where it does not parse.
pub open spec fn source_outline(code: Seq<char>) -> Result<Seq<NodeView>, Seq<char>> {
    match parsed_file(code) {
        Ok(file) => Ok(outline_of(file)),
        Err(e) => Err(error_text(e)),
    }
}

/// Parse the text of a source file and read its outline: the functions, impl
/// blocks and modules in it, nested as they are in the text.
pub fn parse_source(code: &str) -> (r: Result<Vec<Node>, ParseError>)
    ensures
        match r {
            Ok(nodes) => source_outline(code@) == Ok::<Seq<NodeView>, Seq<char>>(
                node_views(nodes@),
            ),
            Err(e) => source_outline(code@) == Err::<Seq<NodeView>, Seq<char>>(e@),
        },
{
    match parse_file(code) {
        Ok(file) => {
            let scopes = read_file_scopes(&file);
            proof {
                lemma_depth_above(scopes@);
            }
            let nodes = lower_scopes(&scopes, Ghost(depth_above(scopes@)));
            proof {
                lemma_outlines_unique(node_views(nodes@), outline_of(file), nested_in_file(file));
            }
            Ok(nodes)
        },
        Err(e) => Err(ParseError { message: error_message(&e) }),
    }
}

} // verus!
