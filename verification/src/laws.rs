//! Laws of discovery: what holds of every source file and every syntax tree.

use vstd::prelude::*;

use crate::mutate::{MutantView, MutationOpView};
use crate::source::SourceFileView;
use crate::syntax::{FunctionView, ImplView, ModuleView, NodeView, ReturnShapeView};
use crate::text::{joined, normalized};
use crate::visit::{
    any_excluded, applicable_ops, discovery, ends_in_result, function_skipped, impl_segment,
    impl_skipped, is_ident, method_skipped, mutants_for, node_mutants, nodes_mutants,
    ok_default_text, return_type_text, trait_name, Context,
};

verus! {

/// The operations of a sequence of mutants, in order.
pub open spec fn ops_of(mutants: Seq<MutantView>) -> Seq<MutationOpView> {
    mutants.map_values(|m: MutantView| m.op)
}

/// The mutants of a function itself, without those of what is nested in it,
/// where `namespace` is the path to the function.
pub open spec fn own_mutants(ctx: Context, namespace: Seq<Seq<char>>, f: FunctionView) -> Seq<
    MutantView,
> {
    mutants_for(ctx, namespace.push(normalized(f.name)), f.output, f.block.span)
}

/// Discovering the same source file twice, with the same error value, yields
/// the same outcome: the same mutants in the same order, or the same
/// diagnostic.
pub proof fn law_discovery_is_repeatable(
    source_file: SourceFileView,
    error_value: Option<Seq<char>>,
    first: Result<Seq<MutantView>, Seq<char>>,
    second: Result<Seq<MutantView>, Seq<char>>,
)
    requires
        first == discovery(source_file, error_value),
        second == discovery(source_file, error_value),
    ensures
        first == second,
{
}

/// Walking the same nodes twice, in the same namespace and context, yields
/// the same mutants in the same order.
pub proof fn law_walk_is_repeatable(
    ctx: Context,
    namespace: Seq<Seq<char>>,
    nodes: Seq<NodeView>,
    first: Seq<MutantView>,
    second: Seq<MutantView>,
)
    requires
        first == nodes_mutants(ctx, namespace, nodes),
        second == nodes_mutants(ctx, namespace, nodes),
    ensures
        first == second,
{
}

/// Mutants come in source order: those of nodes that stand first come first,
/// and a node's place among its siblings does not change what is found in
/// it.
pub proof fn law_walk_is_in_source_order(
    ctx: Context,
    namespace: Seq<Seq<char>>,
    first: Seq<NodeView>,
    second: Seq<NodeView>,
)
    ensures
        nodes_mutants(ctx, namespace, first + second) == nodes_mutants(ctx, namespace, first)
            + nodes_mutants(ctx, namespace, second),
    decreases second.len(),
{
    if second.len() == 0 {
        assert(first + second =~= first);
        assert(nodes_mutants(ctx, namespace, first) + Seq::<MutantView>::empty()
            =~= nodes_mutants(ctx, namespace, first));
    } else {
        law_walk_is_in_source_order(ctx, namespace, first, second.drop_last());
        assert((first + second).drop_last() =~= first + second.drop_last());
        assert((first + second).last() == second.last());
        assert(nodes_mutants(ctx, namespace, first + second) =~= nodes_mutants(
            ctx,
            namespace,
            first,
        ) + nodes_mutants(ctx, namespace, second));
    }
}

/// A function that is not passed over yields its own mutants first, one for
/// each operation that applies to its return type, and then those of what is
/// nested in it. All its own mutants have its qualified name, its return
/// type as shown, and the span of its body.
pub proof fn law_function_mutants(ctx: Context, namespace: Seq<Seq<char>>, f: FunctionView)
    ensures
        !function_skipped(f) ==> node_mutants(ctx, namespace, NodeView::Fn(f)) == own_mutants(
            ctx,
            namespace,
            f,
        ) + nodes_mutants(ctx, namespace.push(normalized(f.name)), f.items),
        !method_skipped(f) ==> node_mutants(ctx, namespace, NodeView::Method(f)) == own_mutants(
            ctx,
            namespace,
            f,
        ) + nodes_mutants(ctx, namespace.push(normalized(f.name)), f.items),
        ops_of(own_mutants(ctx, namespace, f)) == applicable_ops(f.output, ctx.error_value),
        forall|k: int|
            0 <= k < own_mutants(ctx, namespace, f).len() ==> {
                let m = #[trigger] own_mutants(ctx, namespace, f)[k];
                &&& m.source_file == ctx.source_file
                &&& m.function_name == joined(namespace.push(normalized(f.name)))
                &&& m.return_type == return_type_text(f.output)
                &&& m.span == f.block.span
            },
{
    assert(ops_of(own_mutants(ctx, namespace, f)) =~= applicable_ops(f.output, ctx.error_value));
}

/// Coverage by shape: a function without a return type has exactly one
/// mutant of its own, `Unit`; one that returns `bool` has exactly two, `True`
/// and `False`; one that returns `String` has exactly two, `EmptyString` and
/// `Xyzzy`; one whose return type is any other path that does not end in
/// `Result`, or is no path at all, has exactly one, `Default`.
pub proof fn law_coverage_by_shape(ctx: Context, namespace: Seq<Seq<char>>, f: FunctionView)
    ensures
        f.output is Default ==> ops_of(own_mutants(ctx, namespace, f)) == seq![
            MutationOpView::Unit,
        ],
        f.output matches ReturnShapeView::Type(ty) && ty.path matches Some(path) && is_ident(
            path,
            "bool"@,
        ) ==> ops_of(own_mutants(ctx, namespace, f)) == seq![
            MutationOpView::True,
            MutationOpView::False,
        ],
        f.output matches ReturnShapeView::Type(ty) && ty.path matches Some(path) && is_ident(
            path,
            "String"@,
        ) ==> ops_of(own_mutants(ctx, namespace, f)) == seq![
            MutationOpView::EmptyString,
            MutationOpView::Xyzzy,
        ],
        f.output matches ReturnShapeView::Type(ty) && ty.path matches Some(path) && !is_ident(
            path,
            "bool"@,
        ) && !is_ident(path, "String"@) && !ends_in_result(path) ==> ops_of(
            own_mutants(ctx, namespace, f),
        ) == seq![MutationOpView::Default],
        f.output matches ReturnShapeView::Type(ty) && ty.path is None ==> ops_of(
            own_mutants(ctx, namespace, f),
        ) == seq![MutationOpView::Default],
{
    reveal_strlit("bool");
    reveal_strlit("String");
    assert("bool"@.len() == 4 && "String"@.len() == 6);
    law_function_mutants(ctx, namespace, f);
}

/// Exclusion is transitive: an excluded module, impl block or function
/// yields no mutant, whatever is nested in it.
pub proof fn law_exclusion_is_transitive(ctx: Context, namespace: Seq<Seq<char>>, node: NodeView)
    requires
        match node {
            NodeView::Fn(f) => any_excluded(f.attrs),
            NodeView::Method(f) => any_excluded(f.attrs),
            NodeView::Impl(i) => any_excluded(i.attrs),
            NodeView::Mod(m) => any_excluded(m.attrs),
        },
    ensures
        node_mutants(ctx, namespace, node) == Seq::<MutantView>::empty(),
{
}

/// An impl block of the trait `Default` yields no mutant, whatever is nested
/// in it.
pub proof fn law_default_impl_is_passed_over(
    ctx: Context,
    namespace: Seq<Seq<char>>,
    i: ImplView,
)
    requires
        trait_name(i) == Some("Default"@),
    ensures
        node_mutants(ctx, namespace, NodeView::Impl(i)) == Seq::<MutantView>::empty(),
{
}

/// Constructors are passed over: a method named `new` yields no mutant,
/// whatever its return type and whatever is nested in it.
pub proof fn law_constructor_is_passed_over(
    ctx: Context,
    namespace: Seq<Seq<char>>,
    f: FunctionView,
)
    requires
        f.name == "new"@,
    ensures
        node_mutants(ctx, namespace, NodeView::Method(f)) == Seq::<MutantView>::empty(),
{
}

/// Empty bodies are passed over: a function or method whose body holds no
/// statement yields no mutant.
pub proof fn law_empty_body_is_passed_over(
    ctx: Context,
    namespace: Seq<Seq<char>>,
    f: FunctionView,
)
    requires
        f.block.statements == 0,
    ensures
        node_mutants(ctx, namespace, NodeView::Fn(f)) == Seq::<MutantView>::empty(),
        node_mutants(ctx, namespace, NodeView::Method(f)) == Seq::<MutantView>::empty(),
{
}

/// The namespace path of two segments and of three, written out.
pub proof fn lemma_joined_three(a: Seq<char>, b: Seq<char>, c: Seq<char>)
    ensures
        joined(seq![a]) == a,
        joined(seq![a, b]) == a + "::"@ + b,
        joined(seq![a, b, c]) == a + "::"@ + b + "::"@ + c,
{
    assert(seq![a, b].drop_last() =~= seq![a]);
    assert(seq![a, b, c].drop_last() =~= seq![a, b]);
    reveal_with_fuel(joined, 3);
}

/// Name correctness: a method `bar` in an impl block for `Foo` in a module
/// `m` at the top of a file has the qualified name `m::Foo::bar`, and
/// `m::<impl Trait for Foo>::bar` where the block implements `Trait`. Here
/// `k` picks any of the method's own mutants.
pub proof fn law_qualified_name(
    ctx: Context,
    m: ModuleView,
    i: ImplView,
    f: FunctionView,
    k: int,
)
    requires
        m.items == seq![NodeView::Impl(i)],
        i.items == seq![NodeView::Method(f)],
        f.items.len() == 0,
        !any_excluded(m.attrs),
        !impl_skipped(i),
        !method_skipped(f),
        0 <= k < node_mutants(ctx, Seq::empty(), NodeView::Mod(m)).len(),
    ensures
        node_mutants(ctx, Seq::empty(), NodeView::Mod(m)) == own_mutants(
            ctx,
            seq![m.name, impl_segment(i)],
            f,
        ),
        node_mutants(ctx, Seq::empty(), NodeView::Mod(m))[k].function_name == m.name + "::"@
            + impl_segment(i) + "::"@ + normalized(f.name),
        trait_name(i) is None ==> impl_segment(i) == i.self_ty,
        trait_name(i) matches Some(name) ==> impl_segment(i) == "<impl "@ + name + " for "@
            + normalized(i.self_ty) + ">"@,
{
    let top = Seq::<Seq<char>>::empty();
    let in_mod = top.push(m.name);
    let in_impl = in_mod.push(impl_segment(i));
    let in_fn = in_impl.push(normalized(f.name));
    assert(in_impl =~= seq![m.name, impl_segment(i)]);
    assert(in_fn =~= seq![m.name, impl_segment(i), normalized(f.name)]);
    lemma_joined_three(m.name, impl_segment(i), normalized(f.name));
    let own = own_mutants(ctx, in_impl, f);
    let none = Seq::<MutantView>::empty();
    // The method: its own mutants, and nothing nested.
    assert(f.items =~= Seq::<NodeView>::empty());
    assert(nodes_mutants(ctx, in_fn, f.items) == none);
    assert(node_mutants(ctx, in_impl, NodeView::Method(f)) =~= own);
    // The impl block holds the method alone.
    assert(i.items.drop_last() =~= Seq::<NodeView>::empty());
    assert(nodes_mutants(ctx, in_impl, i.items.drop_last()) == none);
    assert(nodes_mutants(ctx, in_impl, i.items) =~= own);
    assert(node_mutants(ctx, in_mod, NodeView::Impl(i)) == own);
    // The module holds the impl block alone.
    assert(m.items.drop_last() =~= Seq::<NodeView>::empty());
    assert(nodes_mutants(ctx, in_mod, m.items.drop_last()) == none);
    assert(nodes_mutants(ctx, in_mod, m.items) =~= own);
    assert(node_mutants(ctx, top, NodeView::Mod(m)) == own);
}

/// Configured error plumbing: a function whose return type is a path that
/// ends in `Result` has `OkDefault` as its only mutant of its own where no
/// error value is configured, and `OkDefault` followed by `ConfiguredError`
/// of the configured expression where one is.
pub proof fn law_configured_error(ctx: Context, namespace: Seq<Seq<char>>, f: FunctionView)
    requires
        f.output matches ReturnShapeView::Type(ty) && ty.path matches Some(path) && ends_in_result(
            path,
        ),
    ensures
        ctx.error_value is None ==> ops_of(own_mutants(ctx, namespace, f)) == seq![
            MutationOpView::OkDefault(ok_default_text(f.output->Type_0.path->Some_0)),
        ],
        ctx.error_value matches Some(expr) ==> ops_of(own_mutants(ctx, namespace, f)) == seq![
            MutationOpView::OkDefault(ok_default_text(f.output->Type_0.path->Some_0)),
            MutationOpView::ConfiguredError(expr),
        ],
{
    reveal_strlit("bool");
    reveal_strlit("String");
    reveal_strlit("Result");
    law_function_mutants(ctx, namespace, f);
    let path = f.output->Type_0.path->Some_0;
    assert(!is_ident(path, "bool"@)) by {
        if is_ident(path, "bool"@) {
            assert(path.segments.last().ident.len() == 4);
        }
    }
    assert(!is_ident(path, "String"@)) by {
        if is_ident(path, "String"@) {
            assert(path.segments.last().ident[0] == 'S');
        }
    }
}

} // verus!
