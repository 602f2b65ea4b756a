//! The syntax tree that the translator reads.
//!
//! The tree follows the shape of an ESTree-style module. Every kind of node
//! that a parser can produce has a place in it, so that the translator, not
//! its caller, decides what is rejected: the kinds that have no lowering are
//! kept as a bare tag without their children.
//!
//! Text is held as `String`; the contracts of this crate speak of it through
//! its view, a `Seq<char>`.

use vstd::prelude::*;

verus! {

/// A parsed source file.
#[derive(Debug)]
pub struct Module {
    pub body: Vec<ModuleItem>,
}

/// One top-level item of a module.
#[derive(Debug)]
pub enum ModuleItem {
    Stmt(Stmt),
    ModuleDecl(ModuleDeclKind),
}

/// The kinds of module-level declaration.
#[derive(Debug, Clone, Copy, PartialEq, Eq)]
pub enum ModuleDeclKind {
    Import,
    Export,
    TypeScript,
}

/// An identifier, used verbatim in the generated code.
#[derive(Debug)]
pub struct Ident {
    pub sym: String,
}

/// A statement.
#[derive(Debug)]
pub enum Stmt {
    Block(BlockStmt),
    Return(ReturnStmt),
    Break(BreakStmt),
    If(IfStmt),
    Throw(ThrowStmt),
    Try(TryStmt),
    While(WhileStmt),
    For(ForStmt),
    ForOf(ForOfStmt),
    Decl(Decl),
    Expr(ExprStmt),
    /// A statement of a kind that has no lowering.
    Other(StmtKind),
}

/// The kinds of statement that have no lowering.
#[derive(Debug, Clone, Copy, PartialEq, Eq)]
pub enum StmtKind {
    Empty,
    Debugger,
    With,
    Labeled,
    Continue,
    Switch,
    DoWhile,
    ForIn,
}

/// `{ ... }`.
#[derive(Debug)]
pub struct BlockStmt {
    pub stmts: Vec<Stmt>,
}

/// An expression in the place of a statement.
#[derive(Debug)]
pub struct ExprStmt {
    pub expr: Box<Expr>,
}

/// `return`, with or without a value.
#[derive(Debug)]
pub struct ReturnStmt {
    pub arg: Option<Box<Expr>>,
}

/// `break`, with or without a label.
#[derive(Debug)]
pub struct BreakStmt {
    pub label: Option<Ident>,
}

/// `if (test) cons else alt`.
#[derive(Debug)]
pub struct IfStmt {
    pub test: Box<Expr>,
    pub cons: Box<Stmt>,
    pub alt: Option<Box<Stmt>>,
}

/// `throw arg`.
#[derive(Debug)]
pub struct ThrowStmt {
    pub arg: Box<Expr>,
}

/// `try`, with its `catch` and `finally` where it has them.
#[derive(Debug)]
pub struct TryStmt {
    pub block: BlockStmt,
    pub handler: Option<CatchClause>,
    pub finalizer: Option<BlockStmt>,
}

/// `catch (param) { ... }`.
#[derive(Debug)]
pub struct CatchClause {
    pub param: Option<Pat>,
    pub body: BlockStmt,
}

/// `while (test) body`.
#[derive(Debug)]
pub struct WhileStmt {
    pub test: Box<Expr>,
    pub body: Box<Stmt>,
}

/// `for (init; test; update) body`, each clause of which may be left out.
#[derive(Debug)]
pub struct ForStmt {
    pub init: Option<VarDeclOrExpr>,
    pub test: Option<Box<Expr>>,
    pub update: Option<Box<Expr>>,
    pub body: Box<Stmt>,
}

/// What a `for` loop starts with.
#[derive(Debug)]
pub enum VarDeclOrExpr {
    VarDecl(VarDecl),
    Expr(Box<Expr>),
}

/// `for (left of right) body`.
#[derive(Debug)]
pub struct ForOfStmt {
    /// Whether the loop is written `for await`.
    pub is_await: bool,
    pub left: ForHead,
    pub right: Box<Expr>,
    pub body: Box<Stmt>,
}

/// What stands before `of` in a for-of loop.
#[derive(Debug)]
pub enum ForHead {
    VarDecl(VarDecl),
    /// A `using` declaration.
    UsingDecl,
    /// A pattern that is assigned to, without a declaration.
    Pat(Pat),
}

/// A declaration.
#[derive(Debug)]
pub enum Decl {
    Fn(FnDecl),
    Var(VarDecl),
    /// A declaration of a kind that has no lowering.
    Other(DeclKind),
}

/// The kinds of declaration that have no lowering.
#[derive(Debug, Clone, Copy, PartialEq, Eq)]
pub enum DeclKind {
    Class,
    Using,
    TypeScript,
}

/// `function ident(...) { ... }`.
#[derive(Debug)]
pub struct FnDecl {
    pub ident: Ident,
    pub function: Function,
}

/// `var`, `let` or `const` with its declarators.
#[derive(Debug)]
pub struct VarDecl {
    pub kind: VarDeclKind,
    pub decls: Vec<VarDeclarator>,
}

/// The keyword of a variable declaration.
#[derive(Debug, Clone, Copy, PartialEq, Eq)]
pub enum VarDeclKind {
    Var,
    Let,
    Const,
}

/// One declared variable, with the value that it starts with.
#[derive(Debug)]
pub struct VarDeclarator {
    pub name: Pat,
    pub init: Option<Box<Expr>>,
}

/// A binding pattern. Only the plain identifier carries its content.
#[derive(Debug)]
pub enum Pat {
    Ident(Ident),
    /// A pattern of a kind that has no lowering.
    Other(PatKind),
}

/// The kinds of pattern that have no lowering.
#[derive(Debug, Clone, Copy, PartialEq, Eq)]
pub enum PatKind {
    Array,
    Rest,
    Object,
    Assign,
    Expr,
    Invalid,
}

/// A function: a declaration's, an expression's or a method's.
#[derive(Debug)]
pub struct Function {
    pub params: Vec<Pat>,
    pub body: Option<BlockStmt>,
    pub is_generator: bool,
    pub is_async: bool,
}

/// An expression.
#[derive(Debug)]
pub enum Expr {
    This,
    Array(ArrayLit),
    Object(ObjectLit),
    Fn(FnExpr),
    Update(UpdateExpr),
    Bin(BinExpr),
    Assign(AssignExpr),
    Member(MemberExpr),
    Cond(CondExpr),
    Call(CallExpr),
    Ident(Ident),
    Lit(Lit),
    Tpl(Tpl),
    TaggedTpl(TaggedTpl),
    Arrow(ArrowExpr),
    Yield(YieldExpr),
    Paren(ParenExpr),
    /// An expression of a kind that has no lowering.
    Other(ExprKind),
}

/// The kinds of expression that have no lowering.
#[derive(Debug, Clone, Copy, PartialEq, Eq)]
pub enum ExprKind {
    Unary,
    SuperProp,
    New,
    Sequence,
    Class,
    MetaProp,
    Await,
    OptChain,
    PrivateName,
    Jsx,
    TypeScript,
    Invalid,
}

/// `[a, b, c]`.
#[derive(Debug)]
pub struct ArrayLit {
    /// The elements in order; `None` is a hole.
    pub elems: Vec<Option<ExprOrSpread>>,
}

/// An element of an array literal or an argument of a call.
#[derive(Debug)]
pub struct ExprOrSpread {
    /// Whether the element is written with `...` before it.
    pub spread: bool,
    pub expr: Box<Expr>,
}

/// `{ ... }` as an expression.
#[derive(Debug)]
pub struct ObjectLit {
    pub props: Vec<PropOrSpread>,
}

/// A member of an object literal: a property, or `...` and an expression.
#[derive(Debug)]
pub enum PropOrSpread {
    Spread,
    Prop(Prop),
}

/// A property of an object literal.
#[derive(Debug)]
pub enum Prop {
    Shorthand(Ident),
    KeyValue(KeyValueProp),
    Getter(GetterProp),
    Setter(SetterProp),
    Method(MethodProp),
    /// `key = value`, which is valid only inside a pattern.
    Assign,
}

/// `key: value`.
#[derive(Debug)]
pub struct KeyValueProp {
    pub key: PropName,
    pub value: Box<Expr>,
}

/// `get key() { ... }`.
#[derive(Debug)]
pub struct GetterProp {
    pub key: PropName,
    pub body: Option<BlockStmt>,
}

/// `set key(param) { ... }`.
#[derive(Debug)]
pub struct SetterProp {
    pub key: PropName,
    pub param: Pat,
    pub body: Option<BlockStmt>,
}

/// `key(...) { ... }`.
#[derive(Debug)]
pub struct MethodProp {
    pub key: PropName,
    pub function: Function,
}

/// The key of a property.
#[derive(Debug)]
pub enum PropName {
    Ident(Ident),
    Str(Str),
    Computed(Box<Expr>),
    /// A key of a kind that has no lowering.
    Other(PropNameKind),
}

/// The kinds of property key that have no lowering.
#[derive(Debug, Clone, Copy, PartialEq, Eq)]
pub enum PropNameKind {
    Num,
    BigInt,
}

/// `function (...) { ... }` as an expression.
#[derive(Debug)]
pub struct FnExpr {
    pub function: Function,
}

/// `++arg`, `arg++`, `--arg` or `arg--`.
#[derive(Debug)]
pub struct UpdateExpr {
    pub op: UpdateOp,
    pub prefix: bool,
    pub arg: Box<Expr>,
}

/// `++` or `--`.
#[derive(Debug, Clone, Copy, PartialEq, Eq)]
pub enum UpdateOp {
    PlusPlus,
    MinusMinus,
}

/// `left op right`.
#[derive(Debug)]
pub struct BinExpr {
    pub op: BinaryOp,
    pub left: Box<Expr>,
    pub right: Box<Expr>,
}

/// The binary operators of the language.
#[derive(Debug, Clone, Copy, PartialEq, Eq)]
pub enum BinaryOp {
    EqEq,
    NotEq,
    EqEqEq,
    NotEqEq,
    Lt,
    LtEq,
    Gt,
    GtEq,
    LShift,
    RShift,
    ZeroFillRShift,
    Add,
    Sub,
    Mul,
    Div,
    Mod,
    BitOr,
    BitXor,
    BitAnd,
    LogicalOr,
    LogicalAnd,
    In,
    InstanceOf,
    Exp,
    NullishCoalescing,
}

/// `left op right`, where `op` assigns.
#[derive(Debug)]
pub struct AssignExpr {
    pub op: AssignOp,
    pub left: AssignTarget,
    pub right: Box<Expr>,
}

/// The assignment operators of the language.
#[derive(Debug, Clone, Copy, PartialEq, Eq)]
pub enum AssignOp {
    Assign,
    AddAssign,
    SubAssign,
    MulAssign,
    DivAssign,
    ModAssign,
    LShiftAssign,
    RShiftAssign,
    ZeroFillRShiftAssign,
    BitOrAssign,
    BitXorAssign,
    BitAndAssign,
    ExpAssign,
    AndAssign,
    OrAssign,
    NullishAssign,
}

/// The left side of an assignment.
#[derive(Debug)]
pub enum AssignTarget {
    Ident(Ident),
    Expr(Box<Expr>),
    /// A destructuring pattern.
    Pat(PatKind),
}

/// `obj.prop` or `obj[prop]`.
#[derive(Debug)]
pub struct MemberExpr {
    pub obj: Box<Expr>,
    pub prop: MemberProp,
}

/// What is accessed of an object.
#[derive(Debug)]
pub enum MemberProp {
    Ident(Ident),
    Computed(Box<Expr>),
    PrivateName,
}

/// `test ? cons : alt`.
#[derive(Debug)]
pub struct CondExpr {
    pub test: Box<Expr>,
    pub cons: Box<Expr>,
    pub alt: Box<Expr>,
}

/// `callee(args)`.
#[derive(Debug)]
pub struct CallExpr {
    pub callee: Callee,
    pub args: Vec<ExprOrSpread>,
}

/// What is called.
#[derive(Debug)]
pub enum Callee {
    Expr(Box<Expr>),
    /// `super` or `import`, which are no expressions.
    Other(CalleeKind),
}

/// The callees that are no expressions.
#[derive(Debug, Clone, Copy, PartialEq, Eq)]
pub enum CalleeKind {
    Super,
    Import,
}

/// A literal.
#[derive(Debug)]
pub enum Lit {
    Str(Str),
    Bool(Bool),
    Num(Number),
    /// A literal of a kind that has no lowering.
    Other(LitKind),
}

/// The kinds of literal that have no lowering.
#[derive(Debug, Clone, Copy, PartialEq, Eq)]
pub enum LitKind {
    Null,
    BigInt,
    Regex,
    JsxText,
}

/// A string literal.
#[derive(Debug)]
pub struct Str {
    /// The string that the literal denotes.
    pub value: String,
    /// The literal as it is written in the source, quotes included.
    pub raw: Option<String>,
}

/// `true` or `false`.
#[derive(Debug)]
pub struct Bool {
    pub value: bool,
}

/// A number literal. Every number is a double; the tree holds the decimal
/// text that stands for its value.
#[derive(Debug)]
pub struct Number {
    pub value: String,
}

/// A template literal: `quasis.len()` is `exprs.len() + 1` in a parsed tree.
#[derive(Debug)]
pub struct Tpl {
    pub exprs: Vec<Expr>,
    pub quasis: Vec<TplElement>,
}

/// A piece of text of a template literal.
#[derive(Debug)]
pub struct TplElement {
    /// The text of the piece as it is written in the source.
    pub raw: String,
}

/// A template literal with a tag before it.
#[derive(Debug)]
pub struct TaggedTpl {
    pub tag: Box<Expr>,
    pub tpl: Tpl,
}

/// `(params) => body`.
#[derive(Debug)]
pub struct ArrowExpr {
    pub params: Vec<Pat>,
    pub body: BlockStmtOrExpr,
    pub is_async: bool,
}

/// The body of an arrow function.
#[derive(Debug)]
pub enum BlockStmtOrExpr {
    BlockStmt(BlockStmt),
    Expr(Box<Expr>),
}

/// `yield arg` or `yield* arg`.
#[derive(Debug)]
pub struct YieldExpr {
    pub arg: Option<Box<Expr>>,
    /// Whether the expression is written `yield*`.
    pub delegate: bool,
}

/// `(expr)`.
#[derive(Debug)]
pub struct ParenExpr {
    pub expr: Box<Expr>,
}

} // verus!
