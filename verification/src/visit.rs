//! Walk the syntax of a source file and discover the mutants in it.

use std::sync::Arc;
use vstd::prelude::*;
use vstd::string::StringExecFns;

use crate::error_value::ErrorValue;
use crate::mutate::{mutant_views, share, Mutant, MutantView, MutationOp, MutationOpView};
use crate::parse::{parse_source, source_outline, ParseError};
use crate::source::{SourceFile, SourceFileView, Span};
use crate::syntax::{
    node_views, option_view, views, ArgumentsShape, ArgumentsShapeView, AttributeShape,
    AttributeShapeView, BlockShape, Function, FunctionView, GenericArgument, GenericArgumentView,
    Impl, ImplView, Module, Node, NodeView, NestedMeta, NestedMetaView, PathShape, PathShapeView,
    ReturnShape, ReturnShapeView,
};
use crate::text::{join_path, joined, normalized, remove_excess_spaces, texts};

verus! {

/// Whether a string spells exactly `literal`.
pub fn text_is(s: &String, literal: &str) -> (r: bool)
    ensures
        r == (s@ == literal@),
{
    *s == String::from_str(literal)
}

/// A path is the identifier `ident` if it has no leading colon and one
/// segment, which is `ident` without arguments.
pub open spec fn is_ident(path: PathShapeView, ident: Seq<char>) -> bool {
    &&& !path.leading_colon
    &&& path.segments.len() == 1
    &&& path.segments[0].arguments is Absent
    &&& path.segments[0].ident == ident
}

/// True if the path is the single identifier `ident`.
pub fn path_is_ident(path: &PathShape, ident: &str) -> (r: bool)
    ensures
        r == is_ident(path@, ident@),
{
    if path.leading_colon || path.segments.len() != 1 {
        return false;
    }
    match path.segments[0].arguments {
        ArgumentsShape::Absent => text_is(&path.segments[0].ident, ident),
        _ => false,
    }
}

/// A path ends in `Result` if its last segment is named so, whatever stands
/// before it and whatever its arguments are.
pub open spec fn ends_in_result(path: PathShapeView) -> bool {
    path.segments.len() > 0 && path.segments.last().ident == "Result"@
}

/// True if the last segment of the path is named `Result`.
pub fn path_is_result(path: &PathShape) -> (r: bool)
    ensures
        r == ends_in_result(path@),
{
    let n = path.segments.len();
    if n == 0 {
        false
    } else {
        text_is(&path.segments[n - 1].ident, "Result")
    }
}

/// `#[test]`.
pub open spec fn is_test_attr(attr: AttributeShapeView) -> bool {
    is_ident(attr.path, "test"@)
}

/// True if the attribute is `#[test]`.
pub fn attr_is_test(attr: &AttributeShape) -> (r: bool)
    ensures
        r == is_test_attr(attr@),
{
    path_is_ident(&attr.path, "test")
}

/// `test` alone, as an item of an attribute's list.
pub open spec fn is_test_item(item: NestedMetaView) -> bool {
    item matches NestedMetaView::Path(path) && is_ident(path, "test"@)
}

/// `#[cfg(..)]` with `test` alone among the items of its list.
pub open spec fn is_cfg_test_attr(attr: AttributeShapeView) -> bool {
    &&& is_ident(attr.path, "cfg"@)
    &&& attr.nested matches Some(items)
    &&& exists|k: int| 0 <= k < items.len() && is_test_item(#[trigger] items[k])
}

/// True if the attribute is `#[cfg(test)]`.
pub fn attr_is_cfg_test(attr: &AttributeShape) -> (r: bool)
    ensures
        r == is_cfg_test_attr(attr@),
{
    if !path_is_ident(&attr.path, "cfg") {
        return false;
    }
    if let Some(items) = &attr.nested {
        let mut k: usize = 0;
        while k < items.len()
            invariant
                k <= items.len(),
                is_ident(attr@.path, "cfg"@),
                attr.nested == Some(*items),
                forall|j: int| 0 <= j < k ==> !is_test_item(#[trigger] items@[j]@),
            decreases items.len() - k,
        {
            if let NestedMeta::Path(cfg_path) = &items[k] {
                if path_is_ident(cfg_path, "test") {
                    assert(is_cfg_test_attr(attr@)) by {
                        let seen = attr@.nested->Some_0;
                        assert(seen == views(items@));
                        assert(is_test_item(seen[k as int]));
                    }
                    return true;
                }
            }
            k += 1;
        }
    }
    false
}

/// `#[mutants::skip]`: exactly the two segments `mutants` and `skip`.
pub open spec fn is_mutants_skip_attr(attr: AttributeShapeView) -> bool {
    &&& attr.path.segments.len() == 2
    &&& attr.path.segments[0].ident == "mutants"@
    &&& attr.path.segments[1].ident == "skip"@
}

/// True if the attribute is `#[mutants::skip]`.
pub fn attr_is_mutants_skip(attr: &AttributeShape) -> (r: bool)
    ensures
        r == is_mutants_skip_attr(attr@),
{
    attr.path.segments.len() == 2 && text_is(&attr.path.segments[0].ident, "mutants") && text_is(
        &attr.path.segments[1].ident,
        "skip",
    )
}

/// An attribute that takes its scope out of discovery.
pub open spec fn is_exclusion(attr: AttributeShapeView) -> bool {
    is_cfg_test_attr(attr) || is_test_attr(attr) || is_mutants_skip_attr(attr)
}

/// A scope is excluded if any of its attributes is an exclusion.
pub open spec fn any_excluded(attrs: Seq<AttributeShapeView>) -> bool {
    exists|k: int| 0 <= k < attrs.len() && is_exclusion(#[trigger] attrs[k])
}

/// True if any of the attrs indicate that we should skip this node and
/// everything inside it.
pub fn attrs_excluded(attrs: &[AttributeShape]) -> (r: bool)
    ensures
        r == any_excluded(views(attrs@)),
{
    let mut k: usize = 0;
    while k < attrs.len()
        invariant
            k <= attrs.len(),
            forall|j: int| 0 <= j < k ==> !is_exclusion(#[trigger] views(attrs@)[j]),
        decreases attrs.len() - k,
    {
        let attr = &attrs[k];
        if attr_is_cfg_test(attr) || attr_is_test(attr) || attr_is_mutants_skip(attr) {
            assert(is_exclusion(views(attrs@)[k as int]));
            return true;
        }
        k += 1;
    }
    false
}

/// True if the block (e.g. the contents of a function) is empty.
pub fn block_is_empty(block: &BlockShape) -> (r: bool)
    ensures
        r == (block.statements == 0),
{
    block.statements == 0
}

/// The names of the primitive integer types.
pub open spec fn is_integer_name(name: Seq<char>) -> bool {
    ||| name == "u8"@
    ||| name == "u16"@
    ||| name == "u32"@
    ||| name == "u64"@
    ||| name == "u128"@
    ||| name == "usize"@
    ||| name == "i8"@
    ||| name == "i16"@
    ||| name == "i32"@
    ||| name == "i64"@
    ||| name == "i128"@
    ||| name == "isize"@
}

/// The names of the primitive floating-point types.
pub open spec fn is_float_name(name: Seq<char>) -> bool {
    name == "f32"@ || name == "f64"@
}

/// The default value of the type named `name`, as source text: `0` for an
/// integer type, `0.0` for a floating-point type, and `Default::default()`
/// for any other.
pub open spec fn default_of_name(name: Seq<char>) -> Seq<char> {
    if is_integer_name(name) {
        "0"@
    } else if is_float_name(name) {
        "0.0"@
    } else {
        "Default::default()"@
    }
}

/// The default value of the success type of a `Result` path, as source text.
/// The success type is the first argument of the path's last segment; where
/// that is not one bare identifier, the default is `Default::default()`.
pub open spec fn ok_default_text(path: PathShapeView) -> Seq<char> {
    if path.segments.len() == 0 {
        "Default::default()"@
    } else {
        match path.segments.last().arguments {
            ArgumentsShapeView::AngleBracketed(args) => if args.len() == 0 {
                "Default::default()"@
            } else {
                match args[0] {
                    GenericArgumentView::Ident(name) => default_of_name(name),
                    GenericArgumentView::Other => "Default::default()"@,
                }
            },
            _ => "Default::default()"@,
        }
    }
}

/// The mutation operations that apply to a function, by the shape of its
/// return type alone; `error_value` is the configured error expression.
pub open spec fn applicable_ops(
    return_type: ReturnShapeView,
    error_value: Option<Seq<char>>,
) -> Seq<MutationOpView> {
    match return_type {
        ReturnShapeView::Default => seq![MutationOpView::Unit],
        ReturnShapeView::Type(ty) => match ty.path {
            Some(path) => if is_ident(path, "bool"@) {
                seq![MutationOpView::True, MutationOpView::False]
            } else if is_ident(path, "String"@) {
                seq![MutationOpView::EmptyString, MutationOpView::Xyzzy]
            } else if ends_in_result(path) {
                match error_value {
                    Some(expr) => seq![
                        MutationOpView::OkDefault(ok_default_text(path)),
                        MutationOpView::ConfiguredError(expr),
                    ],
                    None => seq![MutationOpView::OkDefault(ok_default_text(path))],
                }
            } else {
                seq![MutationOpView::Default]
            },
            None => seq![MutationOpView::Default],
        },
    }
}

/// True if `name` names a primitive integer type.
pub fn name_is_integer(name: &String) -> (r: bool)
    ensures
        r == is_integer_name(name@),
{
    text_is(name, "u8") || text_is(name, "u16") || text_is(name, "u32") || text_is(name, "u64")
        || text_is(name, "u128") || text_is(name, "usize") || text_is(name, "i8") || text_is(
        name,
        "i16",
    ) || text_is(name, "i32") || text_is(name, "i64") || text_is(name, "i128") || text_is(
        name,
        "isize",
    )
}

/// The default value of the success type of a `Result` path, as source text.
pub fn ok_default(path: &PathShape) -> (r: String)
    ensures
        r@ == ok_default_text(path@),
{
    let n = path.segments.len();
    if n > 0 {
        assert(path@.segments.last() == path.segments@[n - 1]@);
        if let ArgumentsShape::AngleBracketed(args) = &path.segments[n - 1].arguments {
            if args.len() > 0 {
                assert(views(args@)[0] == args@[0]@);
                if let GenericArgument::Ident(name) = &args[0] {
                    if name_is_integer(name) {
                        return String::from_str("0");
                    } else if text_is(name, "f32") || text_is(name, "f64") {
                        return String::from_str("0.0");
                    }
                }
            }
        }
    }
    String::from_str("Default::default()")
}

/// The views of a sequence of mutation operations.
pub open spec fn op_views(ops: Seq<MutationOp>) -> Seq<MutationOpView> {
    ops.map_values(|op: MutationOp| op@)
}

/// The mutation operations that apply to a function with the given return
/// type, in the order in which its mutants are listed.
pub fn ops_for_return_type(return_type: &ReturnShape, error_value: Option<&ErrorValue>) -> (ops: Vec<
    MutationOp,
>)
    ensures
        op_views(ops@) == applicable_ops(return_type@, option_view(error_value)),
{
    let mut ops: Vec<MutationOp> = Vec::new();
    match return_type {
        ReturnShape::Default => ops.push(MutationOp::Unit),
        ReturnShape::Type(ty) => match &ty.path {
            Some(path) => {
                if path_is_ident(path, "bool") {
                    ops.push(MutationOp::True);
                    ops.push(MutationOp::False);
                } else if path_is_ident(path, "String") {
                    ops.push(MutationOp::EmptyString);
                    ops.push(MutationOp::Xyzzy);
                } else if path_is_result(path) {
                    ops.push(MutationOp::OkDefault(ok_default(path)));
                    if let Some(value) = error_value {
                        ops.push(MutationOp::ConfiguredError(String::from_str(value.text())));
                    }
                } else {
                    ops.push(MutationOp::Default)
                }
            },
            None => ops.push(MutationOp::Default),
        },
    }
    assert(op_views(ops@) =~= applicable_ops(return_type@, option_view(error_value)));
    ops
}

/// The return type as it is shown: empty where none is written, else the
/// arrow, a space, and the type with conventional spacing.
pub open spec fn return_type_text(return_type: ReturnShapeView) -> Seq<char> {
    match return_type {
        ReturnShapeView::Default => Seq::empty(),
        ReturnShapeView::Type(ty) => "-> "@ + normalized(ty.tokens),
    }
}

/// The return type of a function as it is shown to the user.
pub fn return_type_to_string(return_type: &ReturnShape) -> (r: String)
    ensures
        r@ == return_type_text(return_type@),
{
    match return_type {
        ReturnShape::Default => String::new(),
        ReturnShape::Type(ty) => {
            let mut s = String::from_str("-> ");
            s.append(remove_excess_spaces(ty.tokens.as_str()).as_str());
            s
        },
    }
}

/// What a discovery run is given besides the syntax: the file that is read,
/// and the error value that the user configured, if any.
pub struct Context {
    pub source_file: SourceFileView,
    pub error_value: Option<Seq<char>>,
}

/// The mutants of one function: one for each operation that applies to its
/// return type, in that order, all with the same name, return type and span.
/// `namespace` is the path to the function, its own name included.
pub open spec fn mutants_for(
    ctx: Context,
    namespace: Seq<Seq<char>>,
    return_type: ReturnShapeView,
    span: Span,
) -> Seq<MutantView> {
    applicable_ops(return_type, ctx.error_value).map_values(
        |op: MutationOpView|
            MutantView {
                source_file: ctx.source_file,
                op,
                function_name: joined(namespace),
                return_type: return_type_text(return_type),
                span,
            },
    )
}

/// A free function is passed over, with all that is nested in it, if an
/// attribute excludes it or its body is empty.
pub open spec fn function_skipped(f: FunctionView) -> bool {
    any_excluded(f.attrs) || f.block.statements == 0
}

/// A method is passed over like a free function, and also if it is named
/// `new`.
pub open spec fn method_skipped(f: FunctionView) -> bool {
    any_excluded(f.attrs) || f.name == "new"@ || f.block.statements == 0
}

/// The name of the trait that an impl block implements: the last segment of
/// the trait's path.
pub open spec fn trait_name(i: ImplView) -> Option<Seq<char>> {
    match i.trait_path {
        Some(path) => if path.segments.len() > 0 {
            Some(path.segments.last().ident)
        } else {
            None
        },
        None => None,
    }
}

/// An impl block is passed over, with all that is nested in it, if an
/// attribute excludes it or it implements `Default`.
pub open spec fn impl_skipped(i: ImplView) -> bool {
    any_excluded(i.attrs) || trait_name(i) == Some("Default"@)
}

/// The namespace segment of an impl block: `<impl Trait for Type>` with the
/// type normalized where a trait is implemented, else the type as rendered.
pub open spec fn impl_segment(i: ImplView) -> Seq<char> {
    match trait_name(i) {
        Some(name) => "<impl "@ + name + " for "@ + normalized(i.self_ty) + ">"@,
        None => i.self_ty,
    }
}

/// The mutants found in one node and all that is nested in it, depth first
/// and in source order, where `namespace` is the path to the node.
pub open spec fn node_mutants(ctx: Context, namespace: Seq<Seq<char>>, node: NodeView) -> Seq<
    MutantView,
>
    decreases node,
{
    match node {
        NodeView::Fn(f) => if function_skipped(f) {
            Seq::empty()
        } else {
            let inner = namespace.push(normalized(f.name));
            mutants_for(ctx, inner, f.output, f.block.span) + nodes_mutants(ctx, inner, f.items)
        },
        NodeView::Method(f) => if method_skipped(f) {
            Seq::empty()
        } else {
            let inner = namespace.push(normalized(f.name));
            mutants_for(ctx, inner, f.output, f.block.span) + nodes_mutants(ctx, inner, f.items)
        },
        NodeView::Impl(i) => if impl_skipped(i) {
            Seq::empty()
        } else {
            nodes_mutants(ctx, namespace.push(impl_segment(i)), i.items)
        },
        NodeView::Mod(m) => if any_excluded(m.attrs) {
            Seq::empty()
        } else {
            nodes_mutants(ctx, namespace.push(m.name), m.items)
        },
    }
}

/// The mutants found in a sequence of sibling nodes, in order.
pub open spec fn nodes_mutants(ctx: Context, namespace: Seq<Seq<char>>, nodes: Seq<NodeView>) -> Seq<
    MutantView,
>
    decreases nodes,
{
    if nodes.len() == 0 {
        Seq::empty()
    } else {
        nodes_mutants(ctx, namespace, nodes.drop_last()) + node_mutants(
            ctx,
            namespace,
            nodes.last(),
        )
    }
}

/// Walks the syntax of one file, accumulating the places that could be
/// mutated.
pub struct DiscoveryVisitor {
    /// All the mutants generated by visiting the file.
    pub mutants: Vec<Mutant>,
    /// The file being visited.
    pub source_file: Arc<SourceFile>,
    /// The stack of namespaces we're currently inside.
    pub namespace_stack: Vec<String>,
    /// The error value to return from functions that return `Result`, if
    /// one is configured.
    pub error_value: Option<ErrorValue>,
}

impl DiscoveryVisitor {
    /// The file and error value that the walk was started with.
    pub open spec fn context(&self) -> Context {
        Context { source_file: self.source_file@, error_value: option_view(self.error_value) }
    }

    /// The namespace path that the walk is inside.
    pub open spec fn namespace(&self) -> Seq<Seq<char>> {
        texts(self.namespace_stack@)
    }

    /// The mutants found so far.
    pub open spec fn found(&self) -> Seq<MutantView> {
        mutant_views(self.mutants@)
    }

    /// `inner` is `self` one namespace further in: inside `name`, with the
    /// same context and the same mutants found.
    pub open spec fn entered(&self, name: Seq<char>, inner: &DiscoveryVisitor) -> bool {
        &&& inner.namespace() == self.namespace().push(name)
        &&& inner.context() == self.context()
        &&& inner.found() == self.found()
    }

    /// A visitor for `source_file` that has found nothing yet and stands
    /// outside every namespace.
    pub fn new(source_file: Arc<SourceFile>, error_value: Option<ErrorValue>) -> (r:
        DiscoveryVisitor)
        ensures
            r.context() == (Context {
                source_file: source_file@,
                error_value: option_view(error_value),
            }),
            r.namespace() == Seq::<Seq<char>>::empty(),
            r.found() == Seq::<MutantView>::empty(),
    {
        let r = DiscoveryVisitor {
            mutants: Vec::new(),
            source_file,
            namespace_stack: Vec::new(),
            error_value,
        };
        assert(r.namespace() =~= Seq::<Seq<char>>::empty());
        assert(r.found() =~= Seq::<MutantView>::empty());
        r
    }

    /// Add the mutants of a function with the given return type and body
    /// span, whose name is the namespace that the walk is inside.
    pub fn collect_fn_mutants(&mut self, return_type: &ReturnShape, span: &Span)
        ensures
            final(self).found() == old(self).found() + mutants_for(
                old(self).context(),
                old(self).namespace(),
                return_type@,
                *span,
            ),
            final(self).namespace() == old(self).namespace(),
            final(self).context() == old(self).context(),
    {
        let full_function_name = Arc::new(join_path(&self.namespace_stack));
        let return_type_str = Arc::new(return_type_to_string(return_type));
        let ops = ops_for_return_type(return_type, self.error_value.as_ref());
        let ghost ctx = self.context();
        let ghost expected = mutants_for(ctx, self.namespace(), return_type@, *span);
        assert(op_views(ops@) == applicable_ops(return_type@, ctx.error_value));
        let mut k: usize = 0;
        while k < ops.len()
            invariant
                k <= ops.len(),
                ctx == old(self).context(),
                self.context() == ctx,
                self.namespace() == old(self).namespace(),
                full_function_name@ == joined(self.namespace()),
                return_type_str@ == return_type_text(return_type@),
                op_views(ops@) == applicable_ops(return_type@, ctx.error_value),
                expected == mutants_for(ctx, self.namespace(), return_type@, *span),
                self.found() == old(self).found() + expected.take(k as int),
            decreases ops.len() - k,
        {
            let ghost before = self.found();
            let mutant = Mutant::new(
                share(&self.source_file),
                ops[k].clone(),
                share(&full_function_name),
                share(&return_type_str),
                *span,
            );
            assert(mutant@ == expected[k as int]) by {
                assert(op_views(ops@)[k as int] == ops@[k as int]@);
            }
            self.mutants.push(mutant);
            assert(self.found() =~= before.push(mutant@));
            assert(expected.take(k + 1) =~= expected.take(k as int).push(expected[k as int]));
            assert(self.found() =~= old(self).found() + expected.take(k + 1));
            k += 1;
        }
        assert(expected.take(k as int) =~= expected);
    }
}

impl DiscoveryVisitor {
    /// Call a function with a namespace pushed onto the stack.
    ///
    /// This is used when recursively descending into a namespace. The
    /// function must leave the walk in the namespace in which it found it.
    pub fn in_namespace<F, T>(&mut self, name: &str, f: F) -> (r: T) where
        F: FnOnce(&mut Self) -> T,

        requires
            forall|inner: &mut Self|
                old(self).entered(name@, inner) ==> #[trigger] call_requires(f, (inner,)),
            forall|inner: &mut Self, t: T| #[trigger]
                call_ensures(f, (inner,), t) ==> final(inner).namespace() == inner.namespace()
                    && final(inner).context() == inner.context(),
        ensures
            final(self).namespace() == old(self).namespace(),
            final(self).context() == old(self).context(),
            exists|inner: &mut Self|
                old(self).entered(name@, inner) && #[trigger] call_ensures(f, (inner,), r)
                    && final(self).found() == final(inner).found(),
    {
        self.namespace_stack.push(String::from_str(name));
        assert(self.namespace() =~= old(self).namespace().push(name@));
        let r = f(self);
        let ghost inside = self.namespace();
        let _ = self.namespace_stack.pop();
        assert(self.namespace() =~= inside.drop_last());
        assert(old(self).namespace().push(name@).drop_last() =~= old(self).namespace());
        r
    }

    /// Visit a free function, `fn foo() { .. }`: its own mutants, then what
    /// is nested in it.
    pub fn visit_item_fn(&mut self, i: &Function)
        ensures
            final(self).found() == old(self).found() + node_mutants(
                old(self).context(),
                old(self).namespace(),
                NodeView::Fn(i@),
            ),
            final(self).namespace() == old(self).namespace(),
            final(self).context() == old(self).context(),
        decreases i,
    {
        if attrs_excluded(i.attrs.as_slice()) || block_is_empty(&i.block) {
            assert(self.found() + Seq::<MutantView>::empty() =~= self.found());
            return ;  // don't look inside it either
        }
        let function_name = remove_excess_spaces(i.name.as_str());
        let ghost ctx = self.context();
        let ghost inner = self.namespace().push(function_name@);
        self.in_namespace(function_name.as_str(), |self_: &mut DiscoveryVisitor|
            ensures
                final(self_).found() == old(self_).found() + mutants_for(
                    old(self_).context(),
                    old(self_).namespace(),
                    i@.output,
                    i@.block.span,
                ) + nodes_mutants(old(self_).context(), old(self_).namespace(), i@.items),
                final(self_).context() == old(self_).context(),
                final(self_).namespace() == old(self_).namespace(),
            {
                self_.collect_fn_mutants(&i.output, &i.block.span);
                self_.visit_nodes(&i.items);
            });
        assert(self.found() =~= old(self).found() + (mutants_for(ctx, inner, i@.output, i@.block.span)
            + nodes_mutants(ctx, inner, i@.items)));
    }

    /// Visit `fn foo()` within an `impl`.
    pub fn visit_impl_item_method(&mut self, i: &Function)
        ensures
            final(self).found() == old(self).found() + node_mutants(
                old(self).context(),
                old(self).namespace(),
                NodeView::Method(i@),
            ),
            final(self).namespace() == old(self).namespace(),
            final(self).context() == old(self).context(),
        decreases i,
    {
        // Don't look inside constructors (called "new") because there's often no good
        // alternative.
        if attrs_excluded(i.attrs.as_slice()) || text_is(&i.name, "new") || block_is_empty(
            &i.block,
        ) {
            assert(self.found() + Seq::<MutantView>::empty() =~= self.found());
            return ;
        }
        let function_name = remove_excess_spaces(i.name.as_str());
        let ghost ctx = self.context();
        let ghost inner = self.namespace().push(function_name@);
        self.in_namespace(function_name.as_str(), |self_: &mut DiscoveryVisitor|
            ensures
                final(self_).found() == old(self_).found() + mutants_for(
                    old(self_).context(),
                    old(self_).namespace(),
                    i@.output,
                    i@.block.span,
                ) + nodes_mutants(old(self_).context(), old(self_).namespace(), i@.items),
                final(self_).context() == old(self_).context(),
                final(self_).namespace() == old(self_).namespace(),
            {
                self_.collect_fn_mutants(&i.output, &i.block.span);
                self_.visit_nodes(&i.items);
            });
        assert(self.found() =~= old(self).found() + (mutants_for(ctx, inner, i@.output, i@.block.span)
            + nodes_mutants(ctx, inner, i@.items)));
    }

    /// Visit `impl Foo { ...}` or `impl Debug for Foo { ... }`.
    pub fn visit_item_impl(&mut self, i: &Impl)
        ensures
            final(self).found() == old(self).found() + node_mutants(
                old(self).context(),
                old(self).namespace(),
                NodeView::Impl(i@),
            ),
            final(self).namespace() == old(self).namespace(),
            final(self).context() == old(self).context(),
        decreases i,
    {
        if attrs_excluded(i.attrs.as_slice()) {
            assert(self.found() + Seq::<MutantView>::empty() =~= self.found());
            return ;
        }
        let mut name = i.self_ty.clone();
        if let Some(trait_path) = &i.trait_path {
            let n = trait_path.segments.len();
            if n > 0 {
                assert(trait_path@.segments.last() == trait_path.segments@[n - 1]@);
                let trait_name = &trait_path.segments[n - 1].ident;
                if text_is(trait_name, "Default") {
                    // We don't know (yet) how to generate an interestingly-broken
                    // Default::default.
                    assert(self.found() + Seq::<MutantView>::empty() =~= self.found());
                    return ;
                }
                name = String::from_str("<impl ");
                name.append(trait_name.as_str());
                name.append(" for ");
                name.append(remove_excess_spaces(i.self_ty.as_str()).as_str());
                name.append(">");
            }
        }
        assert(name@ == impl_segment(i@));
        let ghost ctx = self.context();
        let ghost inner = self.namespace().push(name@);
        // Make an approximately-right namespace.
        self.in_namespace(name.as_str(), |v: &mut DiscoveryVisitor|
            ensures
                final(v).found() == old(v).found() + nodes_mutants(
                    old(v).context(),
                    old(v).namespace(),
                    i@.items,
                ),
                final(v).context() == old(v).context(),
                final(v).namespace() == old(v).namespace(),
            {
                v.visit_nodes(&i.items)
            });
    }

    /// Visit `mod foo { ... }`.
    pub fn visit_item_mod(&mut self, node: &Module)
        ensures
            final(self).found() == old(self).found() + node_mutants(
                old(self).context(),
                old(self).namespace(),
                NodeView::Mod(node@),
            ),
            final(self).namespace() == old(self).namespace(),
            final(self).context() == old(self).context(),
        decreases node,
    {
        if !attrs_excluded(node.attrs.as_slice()) {
            self.in_namespace(node.name.as_str(), |v: &mut DiscoveryVisitor|
                ensures
                    final(v).found() == old(v).found() + nodes_mutants(
                        old(v).context(),
                        old(v).namespace(),
                        node@.items,
                    ),
                    final(v).context() == old(v).context(),
                    final(v).namespace() == old(v).namespace(),
                {
                    v.visit_nodes(&node.items)
                });
        } else {
            assert(self.found() + Seq::<MutantView>::empty() =~= self.found());
        }
    }

    /// Visit sibling nodes in order, each by the method for its kind.
    pub fn visit_nodes(&mut self, nodes: &Vec<Node>)
        ensures
            final(self).found() == old(self).found() + nodes_mutants(
                old(self).context(),
                old(self).namespace(),
                node_views(nodes@),
            ),
            final(self).namespace() == old(self).namespace(),
            final(self).context() == old(self).context(),
        decreases nodes,
    {
        let ghost ctx = self.context();
        let ghost ns = self.namespace();
        let mut k: usize = 0;
        assert(self.found() + Seq::<MutantView>::empty() =~= self.found());
        while k < nodes.len()
            invariant
                k <= nodes.len(),
                ctx == old(self).context(),
                ns == old(self).namespace(),
                self.context() == ctx,
                self.namespace() == ns,
                self.found() == old(self).found() + nodes_mutants(
                    ctx,
                    ns,
                    node_views(nodes@.take(k as int)),
                ),
            decreases nodes.len() - k,
        {
            let ghost before = nodes@.take(k as int);
            let ghost after = nodes@.take(k + 1);
            let ghost found_before = self.found();
            match &nodes[k] {
                Node::Fn(f) => self.visit_item_fn(f),
                Node::Method(f) => self.visit_impl_item_method(f),
                Node::Impl(i) => self.visit_item_impl(i),
                Node::Mod(m) => self.visit_item_mod(m),
            }
            proof {
                assert(after.drop_last() =~= before);
                assert(after.last() == nodes@[k as int]);
                assert(node_views(after) == node_views(before).push(nodes@[k as int]@));
                assert(node_views(after).drop_last() =~= node_views(before));
                assert(self.found() == found_before + node_mutants(ctx, ns, nodes@[k as int]@));
                assert(self.found() =~= old(self).found() + nodes_mutants(
                    ctx,
                    ns,
                    node_views(after),
                ));
            }
            k += 1;
        }
        assert(nodes@.take(k as int) =~= nodes@);
    }
}

/// The mutants of a file whose outline is `outline`: those of its nodes, in
/// order, each found outside every namespace.
pub open spec fn outline_mutants(ctx: Context, outline: Seq<NodeView>) -> Seq<MutantView> {
    nodes_mutants(ctx, Seq::empty(), outline)
}

/// What discovery gives for a source file: the mutants of the outline that
/// the file's text parses to, or the parser's diagnostic where the text is
/// not syntactically valid.
pub open spec fn discovery(source_file: SourceFileView, error_value: Option<Seq<char>>) -> Result<
    Seq<MutantView>,
    Seq<char>,
> {
    match source_outline(source_file.code) {
        Ok(outline) => Ok(outline_mutants(Context { source_file, error_value }, outline)),
        Err(message) => Err(message),
    }
}

/// Find all possible mutants in a source file whose outline is at hand.
pub fn discover_in_outline(
    source_file: Arc<SourceFile>,
    error_value: Option<&ErrorValue>,
    outline: &Vec<Node>,
) -> (r: Vec<Mutant>)
    ensures
        mutant_views(r@) == outline_mutants(
            Context { source_file: source_file@, error_value: option_view(error_value) },
            node_views(outline@),
        ),
{
    let error_value = match error_value {
        Some(value) => Some(value.clone()),
        None => None,
    };
    let mut visitor = DiscoveryVisitor::new(source_file, error_value);
    let ghost ctx = visitor.context();
    visitor.visit_nodes(outline);
    assert(visitor.found() =~= outline_mutants(ctx, node_views(outline@)));
    visitor.mutants
}

/// What a result of discovery says: the views of the mutants, or the
/// diagnostic.
pub open spec fn outcome_view(r: Result<Vec<Mutant>, ParseError>) -> Result<
    Seq<MutantView>,
    Seq<char>,
> {
    match r {
        Ok(mutants) => Ok(mutant_views(mutants@)),
        Err(e) => Err(e@),
    }
}

/// Find all possible mutants in a source file.
///
/// `error_value` is the error expression that the user configured, if any:
/// functions that return `Result` get a mutant that returns it. Fails if the
/// text of the file is not syntactically valid Rust.
pub fn discover_mutants(source_file: Arc<SourceFile>, error_value: Option<&ErrorValue>) -> (r:
    Result<Vec<Mutant>, ParseError>)
    ensures
        outcome_view(r) == discovery(source_file@, option_view(error_value)),
{
    match parse_source(source_file.code()) {
        Ok(outline) => Ok(discover_in_outline(source_file, error_value, &outline)),
        Err(e) => Err(e),
    }
}

} // verus!
