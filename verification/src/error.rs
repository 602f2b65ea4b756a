//! Why a translation failed.

use vstd::prelude::*;
use crate::ast::{
    AssignOp, BinaryOp, CalleeKind, DeclKind, ExprKind, LitKind, ModuleDeclKind, PatKind,
    PropNameKind, StmtKind, VarDeclKind,
};

verus! {

/// A failure of a translation. The first one met ends the translation: no
/// text is returned beside it.
#[derive(Debug, Clone, Copy, PartialEq, Eq)]
pub enum TranspileError {
    /// The tree holds a construct that the translator does not lower.
    Unsupported(Construct),
    /// A node lacks a child that its lowering needs.
    Malformed(Defect),
    /// The statement needs a feature that is switched off.
    FeatureGate(Gated),
}

/// The three kinds of failure.
#[derive(Debug, Clone, Copy, PartialEq, Eq)]
pub enum ErrorKind {
    /// The tree holds a construct that the translator does not lower.
    UnsupportedConstruct,
    /// A node lacks a child that its lowering needs.
    MalformedAst,
    /// A statement needs a feature that is switched off.
    FeatureGateViolation,
}

/// A construct without a lowering.
#[derive(Debug, Clone, Copy, PartialEq, Eq)]
pub enum Construct {
    /// An import or export at module level.
    ModuleDeclaration(ModuleDeclKind),
    /// A statement of a kind that is not lowered.
    Statement(StmtKind),
    /// A declaration of a kind that is not lowered.
    Declaration(DeclKind),
    /// An expression of a kind that is not lowered.
    Expression(ExprKind),
    /// A literal of a kind that is not lowered.
    Literal(LitKind),
    /// A variable declaration that is not a `let`.
    VarKind(VarDeclKind),
    /// A `let` with more than one declarator.
    MultipleDeclarators,
    /// A declared variable that is not a plain identifier.
    BindingPattern(PatKind),
    /// A function parameter that is not a plain identifier.
    ParameterPattern(PatKind),
    /// A `catch` binding that is not a plain identifier.
    CatchPattern(PatKind),
    /// A `catch` without a binding.
    CatchWithoutBinding,
    /// A `try` without a `catch`.
    TryWithoutCatch,
    /// A `finally` block.
    Finally,
    /// A for-of loop whose head declares no variable.
    ForOfHead,
    /// A `for await` loop.
    ForAwait,
    /// A `break` with a label.
    LabeledBreak,
    /// An assignment to a destructuring pattern.
    AssignPattern(PatKind),
    /// An assignment operator other than `=`.
    AssignOperator(AssignOp),
    /// A binary operator that is not lowered.
    BinaryOperator(BinaryOp),
    /// A function or an arrow function that is `async`.
    AsyncFunction,
    /// `yield*`.
    DelegateYield,
    /// A hole in an array literal.
    ArrayHole,
    /// `...` before an element or an argument.
    Spread,
    /// `...` inside an object literal.
    ObjectSpread,
    /// `key = value` inside an object literal.
    AssignProperty,
    /// A property key that is a number.
    PropertyName(PropNameKind),
    /// Access to a private member, `#name`.
    PrivateMember,
    /// A call of `super` or `import`.
    Callee(CalleeKind),
    /// A template literal with an interpolation.
    TemplateInterpolation,
    /// A tagged template whose tag is not `raw_cpp`.
    TaggedTemplate,
}

/// A child that is missing or out of place.
#[derive(Debug, Clone, Copy, PartialEq, Eq)]
pub enum Defect {
    /// A function without a body.
    FunctionBody,
    /// A getter without a body.
    GetterBody,
    /// A setter without a body.
    SetterBody,
    /// The parameter of a setter is not a plain identifier.
    SetterParameter,
    /// A variable declaration without a declarator.
    Declarator,
    /// A template literal without a piece of text.
    TemplateText,
    /// The source text of a string literal is too short to hold its quotes.
    StringQuotes,
}

/// A statement that is lowered only while exceptions are enabled.
#[derive(Debug, Clone, Copy, PartialEq, Eq)]
pub enum Gated {
    /// `throw`.
    Throw,
    /// `try`.
    Try,
}

impl ErrorKind {
    /// The name of the kind, as it is written in a diagnostic.
    pub open spec fn spec_name(self) -> Seq<char> {
        match self {
            ErrorKind::UnsupportedConstruct => "unsupported-construct"@,
            ErrorKind::MalformedAst => "malformed-ast"@,
            ErrorKind::FeatureGateViolation => "feature-gate-violation"@,
        }
    }

    /// The name of the kind, as it is written in a diagnostic.
    pub fn name(self) -> (name: &'static str)
        ensures
            name@ == self.spec_name(),
    {
        match self {
            ErrorKind::UnsupportedConstruct => "unsupported-construct",
            ErrorKind::MalformedAst => "malformed-ast",
            ErrorKind::FeatureGateViolation => "feature-gate-violation",
        }
    }
}

impl TranspileError {
    /// The kind of this failure.
    pub open spec fn spec_kind(self) -> ErrorKind {
        match self {
            TranspileError::Unsupported(_) => ErrorKind::UnsupportedConstruct,
            TranspileError::Malformed(_) => ErrorKind::MalformedAst,
            TranspileError::FeatureGate(_) => ErrorKind::FeatureGateViolation,
        }
    }

    /// The kind of this failure.
    #[verifier::when_used_as_spec(spec_kind)]
    pub fn kind(self) -> (kind: ErrorKind)
        ensures
            kind == self.spec_kind(),
    {
        match self {
            TranspileError::Unsupported(_) => ErrorKind::UnsupportedConstruct,
            TranspileError::Malformed(_) => ErrorKind::MalformedAst,
            TranspileError::FeatureGate(_) => ErrorKind::FeatureGateViolation,
        }
    }
}

} // verus!
