//! Mutation operations and the mutants they make.

use std::sync::Arc;
use vstd::prelude::*;
use vstd::string::StringExecFns;

use crate::source::{SourceFile, SourceFileView, Span};

verus! {

/// What a function's body is replaced with.
#[derive(Debug, PartialEq, Eq)]
pub enum MutationOp {
    /// Return `()`: for a function without a return type.
    Unit,
    /// Return `true`.
    True,
    /// Return `false`.
    False,
    /// Return an empty string.
    EmptyString,
    /// Return the string `"xyzzy"`, which differs from the empty string and
    /// from any value a real function is likely to return.
    Xyzzy,
    /// Return `Default::default()`.
    Default,
    /// Return `Ok` of the success type's default value, whose source text
    /// this carries: `0` for a numeric type, else `Default::default()`.
    OkDefault(String),
    /// Return `Err` of the error expression that the user configured, whose
    /// source text this carries.
    ConfiguredError(String),
}

/// The mathematical content of a [`MutationOp`].
pub enum MutationOpView {
    Unit,
    True,
    False,
    EmptyString,
    Xyzzy,
    Default,
    OkDefault(Seq<char>),
    ConfiguredError(Seq<char>),
}

impl View for MutationOp {
    type V = MutationOpView;

    open spec fn view(&self) -> MutationOpView {
        match self {
            MutationOp::Unit => MutationOpView::Unit,
            MutationOp::True => MutationOpView::True,
            MutationOp::False => MutationOpView::False,
            MutationOp::EmptyString => MutationOpView::EmptyString,
            MutationOp::Xyzzy => MutationOpView::Xyzzy,
            MutationOp::Default => MutationOpView::Default,
            MutationOp::OkDefault(value) => MutationOpView::OkDefault(value@),
            MutationOp::ConfiguredError(expr) => MutationOpView::ConfiguredError(expr@),
        }
    }
}

/// The source text that stands in place of the function's body.
pub open spec fn replacement_text(op: MutationOpView) -> Seq<char> {
    match op {
        MutationOpView::Unit => "()"@,
        MutationOpView::True => "true"@,
        MutationOpView::False => "false"@,
        MutationOpView::EmptyString => "\"\".into()"@,
        MutationOpView::Xyzzy => "\"xyzzy\".into()"@,
        MutationOpView::Default => "Default::default()"@,
        MutationOpView::OkDefault(value) => "Ok("@ + value + ")"@,
        MutationOpView::ConfiguredError(expr) => "Err("@ + expr + ")"@,
    }
}

/// The short description of an operation, as `replace with true`.
pub open spec fn description_text(op: MutationOpView) -> Seq<char> {
    "replace with "@ + replacement_text(op)
}

impl Clone for MutationOp {
    fn clone(&self) -> (r: MutationOp)
        ensures
            r@ == self@,
    {
        match self {
            MutationOp::Unit => MutationOp::Unit,
            MutationOp::True => MutationOp::True,
            MutationOp::False => MutationOp::False,
            MutationOp::EmptyString => MutationOp::EmptyString,
            MutationOp::Xyzzy => MutationOp::Xyzzy,
            MutationOp::Default => MutationOp::Default,
            MutationOp::OkDefault(value) => MutationOp::OkDefault(value.clone()),
            MutationOp::ConfiguredError(expr) => MutationOp::ConfiguredError(expr.clone()),
        }
    }
}

impl MutationOp {
    /// The source text that stands in place of the function's body.
    pub fn replacement(&self) -> (r: String)
        ensures
            r@ == replacement_text(self@),
    {
        match self {
            MutationOp::Unit => String::from_str("()"),
            MutationOp::True => String::from_str("true"),
            MutationOp::False => String::from_str("false"),
            MutationOp::EmptyString => String::from_str("\"\".into()"),
            MutationOp::Xyzzy => String::from_str("\"xyzzy\".into()"),
            MutationOp::Default => String::from_str("Default::default()"),
            MutationOp::OkDefault(value) => {
                let mut s = String::from_str("Ok(");
                s.append(value.as_str());
                s.append(")");
                s
            },
            MutationOp::ConfiguredError(expr) => {
                let mut s = String::from_str("Err(");
                s.append(expr.as_str());
                s.append(")");
                s
            },
        }
    }

    /// The short description of the operation, as `replace with true`.
    pub fn describe(&self) -> (r: String)
        ensures
            r@ == description_text(self@),
    {
        let mut s = String::from_str("replace with ");
        s.append(self.replacement().as_str());
        s
    }
}

/// `Arc::clone`: another handle to the same shared value.
#[verifier::external_body]
pub(crate) fn share<T>(handle: &Arc<T>) -> (r: Arc<T>)
    ensures
        r == *handle,
{
    Arc::clone(handle)
}

/// A mutation applied to source code: one function of one file, and what its
/// body is replaced with.
#[derive(Debug, PartialEq, Eq)]
pub struct Mutant {
    /// The file that holds the function.
    pub source_file: Arc<SourceFile>,
    /// What the body is replaced with.
    pub op: MutationOp,
    /// The fully qualified name of the function, shared by all its mutants.
    pub function_name: Arc<String>,
    /// The normalized return type, with its arrow, shared by all its mutants;
    /// empty for a function without one.
    pub return_type: Arc<String>,
    /// Where the body of the function stands in the file.
    pub span: Span,
}

/// The mathematical content of a [`Mutant`].
pub struct MutantView {
    pub source_file: SourceFileView,
    pub op: MutationOpView,
    pub function_name: Seq<char>,
    pub return_type: Seq<char>,
    pub span: Span,
}

impl View for Mutant {
    type V = MutantView;

    open spec fn view(&self) -> MutantView {
        MutantView {
            source_file: self.source_file@,
            op: self.op@,
            function_name: self.function_name@,
            return_type: self.return_type@,
            span: self.span,
        }
    }
}

/// The views of a sequence of mutants.
pub open spec fn mutant_views(mutants: Seq<Mutant>) -> Seq<MutantView> {
    mutants.map_values(|m: Mutant| m@)
}

/// The line that describes a mutant: `replace`, the function's name, its
/// return type if it has one, `with`, and the replacement.
pub open spec fn change_text(m: MutantView) -> Seq<char> {
    "replace "@ + m.function_name + (if m.return_type.len() == 0 {
        Seq::<char>::empty()
    } else {
        " "@ + m.return_type
    }) + " with "@ + replacement_text(m.op)
}

impl Mutant {
    /// The mutant of `source_file` that replaces the body at `span` of the
    /// function `function_name` as `op` says.
    pub fn new(
        source_file: Arc<SourceFile>,
        op: MutationOp,
        function_name: Arc<String>,
        return_type: Arc<String>,
        span: Span,
    ) -> (r: Mutant)
        ensures
            r@ == (MutantView {
                source_file: source_file@,
                op: op@,
                function_name: function_name@,
                return_type: return_type@,
                span,
            }),
    {
        Mutant { source_file, op, function_name, return_type, span }
    }

    /// The file that holds the mutated function.
    pub fn source_file(&self) -> (r: &SourceFile)
        ensures
            r@ == self@.source_file,
    {
        &self.source_file
    }

    /// What the body is replaced with.
    pub fn op(&self) -> (r: &MutationOp)
        ensures
            r@ == self@.op,
    {
        &self.op
    }

    /// The fully qualified name of the mutated function.
    pub fn function_name(&self) -> (r: &str)
        ensures
            r@ == self@.function_name,
    {
        self.function_name.as_str()
    }

    /// The normalized return type of the mutated function, with its arrow;
    /// empty if it has none.
    pub fn return_type(&self) -> (r: &str)
        ensures
            r@ == self@.return_type,
    {
        self.return_type.as_str()
    }

    /// Where the body of the mutated function stands.
    pub fn span(&self) -> (r: Span)
        ensures
            r == self@.span,
    {
        self.span
    }

    /// The source text that stands in place of the function's body.
    pub fn replacement_text(&self) -> (r: String)
        ensures
            r@ == replacement_text(self@.op),
    {
        self.op.replacement()
    }

    /// The line that describes the mutant in a listing, without its location:
    /// `replace even_is_ok -> Result<u32, &'static str> with Ok(0)`.
    pub fn describe_change(&self) -> (r: String)
        ensures
            r@ == change_text(self@),
    {
        let mut s = String::from_str("replace ");
        s.append(self.function_name.as_str());
        let ghost head = s@;
        if self.return_type.as_str().is_empty() {
            assert(head + Seq::<char>::empty() =~= head);
        } else {
            s.append(" ");
            s.append(self.return_type.as_str());
            assert(s@ =~= head + (" "@ + self@.return_type));
        }
        s.append(" with ");
        s.append(self.op.replacement().as_str());
        s
    }
}

} // verus!
