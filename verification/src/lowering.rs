//! What the translator writes for each node of the syntax tree.
//!
//! These functions are the meaning of the translation: the executable
//! translator is proved to return exactly what they say. Each gives either
//! the text of a node or the first failure that is met when its parts are
//! taken in order.

use vstd::prelude::*;
use crate::ast::{
    ArrayLit, ArrowExpr, AssignExpr, AssignOp, AssignTarget, BinExpr, BinaryOp, BlockStmt,
    BlockStmtOrExpr, Bool, BreakStmt, CallExpr, Callee, CondExpr, Decl, Expr, ExprOrSpread, FnDecl,
    ForHead, ForOfStmt, ForStmt, Function, GetterProp, IfStmt, KeyValueProp, Lit, MemberExpr,
    MemberProp, MethodProp, ModuleItem, Number, ObjectLit, ParenExpr, Pat, Prop, PropName,
    PropOrSpread, ReturnStmt, SetterProp, Stmt, Str, TaggedTpl, ThrowStmt, Tpl, TryStmt, UpdateExpr,
    UpdateOp, VarDecl, VarDeclKind, VarDeclOrExpr, VarDeclarator, WhileStmt, YieldExpr,
};
use crate::error::{Construct, Defect, Gated, TranspileError};
use crate::shapes::{
    accessors_shape, array_shape, arrow_shape, assignment_shape, binary_shape, block_shape,
    bool_value, call_shape, conditional_shape, declaration_shape, entry_shape, expression_body,
    fn_decl_shape, for_of_shape, for_shape, function_shape, generator_shape, if_shape,
    initialized_shape, member_shape, number_value, object_shape, param_binding, parenthesized,
    quoted, return_shape, statement_shape, string_value, throw_shape, try_shape, undefined_value,
    update_shape, value_copy, while_shape, yield_shape,
};
use crate::text::joined;

verus! {

/// What the lowering of a node depends on, beside the node.
pub struct Context {
    /// Whether `throw` and `try` are lowered to C++ exceptions.
    pub exceptions: bool,
    /// Whether the node stands in the body of a generator function.
    pub in_generator: bool,
}

/// The text of a node, or why it has none.
pub type Lowered = Result<Seq<char>, TranspileError>;

/// The texts of the nodes of a list, or the first failure among them.
pub type LoweredList = Result<Seq<Seq<char>>, TranspileError>;

/// A failure for want of a lowering.
pub open spec fn unsupported(construct: Construct) -> Lowered {
    Err(TranspileError::Unsupported(construct))
}

/// A failure for want of a child.
pub open spec fn malformed(defect: Defect) -> Lowered {
    Err(TranspileError::Malformed(defect))
}

// ----- leaves -----

/// The characters of a string literal: its source text without the quotes
/// where the tree holds it, so that escapes stay as they were written; else
/// its value.
pub open spec fn string_content(string: Str) -> Lowered {
    match string.raw {
        Some(raw) => if raw@.len() >= 2 {
            Ok(raw@.subrange(1, raw@.len() - 1))
        } else {
            malformed(Defect::StringQuotes)
        },
        None => Ok(string.value@),
    }
}

pub open spec fn string_text(string: Str) -> Lowered {
    match string_content(string) {
        Err(e) => Err(e),
        Ok(content) => Ok(string_value(content)),
    }
}

pub open spec fn number_text(number: Number) -> Lowered {
    Ok(number_value(number.value@))
}

pub open spec fn bool_text(value: Bool) -> Lowered {
    Ok(bool_value(value.value))
}

pub open spec fn literal_text(lit: Lit) -> Lowered {
    match lit {
        Lit::Num(number) => number_text(number),
        Lit::Str(string) => string_text(string),
        Lit::Bool(value) => bool_text(value),
        Lit::Other(kind) => unsupported(Construct::Literal(kind)),
    }
}

/// A template literal without interpolation is a string.
pub open spec fn tpl_text(tpl: Tpl) -> Lowered {
    if tpl.exprs@.len() > 0 || tpl.quasis@.len() > 1 {
        unsupported(Construct::TemplateInterpolation)
    } else if tpl.quasis@.len() == 0 {
        malformed(Defect::TemplateText)
    } else {
        Ok(string_value(tpl.quasis@[0].raw@))
    }
}

/// The C++ operator for a binary operator. Strict and loose comparison are
/// not told apart.
pub open spec fn binary_operator(op: BinaryOp) -> Lowered {
    match op {
        BinaryOp::Add => Ok("+"@),
        BinaryOp::Mul => Ok("*"@),
        BinaryOp::Gt => Ok(">"@),
        BinaryOp::GtEq => Ok(">="@),
        BinaryOp::EqEq => Ok("=="@),
        BinaryOp::EqEqEq => Ok("=="@),
        BinaryOp::Lt => Ok("<"@),
        BinaryOp::LtEq => Ok("<="@),
        BinaryOp::NotEq => Ok("!="@),
        BinaryOp::NotEqEq => Ok("!="@),
        BinaryOp::LogicalAnd => Ok("&&"@),
        BinaryOp::LogicalOr => Ok("||"@),
        BinaryOp::Mod => Ok("%"@),
        _ => unsupported(Construct::BinaryOperator(op)),
    }
}

pub open spec fn update_operator(op: UpdateOp) -> Seq<char> {
    match op {
        UpdateOp::MinusMinus => "--"@,
        UpdateOp::PlusPlus => "++"@,
    }
}

/// The lines that bind the parameters from `from` on to their names, each by
/// its position in the whole list.
pub open spec fn param_bindings(params: Seq<Pat>, from: nat) -> LoweredList
    decreases params.len() - from,
{
    if from >= params.len() {
        Ok(Seq::empty())
    } else {
        match params[from as int] {
            Pat::Other(kind) => Err(
                TranspileError::Unsupported(Construct::ParameterPattern(kind)),
            ),
            Pat::Ident(ident) => match param_bindings(params, from + 1) {
                Err(e) => Err(e),
                Ok(rest) => Ok(seq![param_binding(ident.sym@, from)] + rest),
            },
        }
    }
}

/// The parameter bindings of a function as one text.
pub open spec fn destructured_params(params: Seq<Pat>) -> Lowered {
    match param_bindings(params, 0) {
        Err(e) => Err(e),
        Ok(bindings) => Ok(joined(bindings, ";"@)),
    }
}

pub open spec fn break_text(stmt: BreakStmt) -> Lowered {
    match stmt.label {
        Some(_) => unsupported(Construct::LabeledBreak),
        None => Ok("break"@),
    }
}

// ----- statements -----

/// A statement: what its kind writes, and a semicolon.
pub open spec fn stmt_text(stmt: Stmt, cx: Context) -> Lowered
    decreases stmt, 1nat,
{
    match stmt_body_text(stmt, cx) {
        Err(e) => Err(e),
        Ok(inner) => Ok(statement_shape(inner)),
    }
}

pub open spec fn stmt_body_text(stmt: Stmt, cx: Context) -> Lowered
    decreases stmt, 0nat,
{
    match stmt {
        Stmt::Decl(decl) => decl_text(decl, cx),
        Stmt::Expr(expr_stmt) => expr_text(*expr_stmt.expr, cx),
        Stmt::Block(block) => block_text(block, cx),
        Stmt::Return(ret) => return_text(ret, cx),
        Stmt::If(if_stmt) => if_text(if_stmt, cx),
        Stmt::For(for_stmt) => for_text(for_stmt, cx),
        Stmt::ForOf(for_of) => for_of_text(for_of, cx),
        Stmt::While(while_stmt) => while_text(while_stmt, cx),
        Stmt::Break(break_stmt) => break_text(break_stmt),
        Stmt::Throw(throw) => throw_text(throw, cx),
        Stmt::Try(try_stmt) => try_text(try_stmt, cx),
        Stmt::Other(kind) => unsupported(Construct::Statement(kind)),
    }
}

/// The texts of the statements from `from` on.
pub open spec fn stmt_texts(stmts: Seq<Stmt>, from: nat, cx: Context) -> LoweredList
    decreases stmts, stmts.len() - from,
{
    if from >= stmts.len() {
        Ok(Seq::empty())
    } else {
        match stmt_text(stmts[from as int], cx) {
            Err(e) => Err(e),
            Ok(first) => match stmt_texts(stmts, from + 1, cx) {
                Err(e) => Err(e),
                Ok(rest) => Ok(seq![first] + rest),
            },
        }
    }
}

pub open spec fn block_text(block: BlockStmt, cx: Context) -> Lowered
    decreases block, 0nat,
{
    match stmt_texts(block.stmts@, 0, cx) {
        Err(e) => Err(e),
        Ok(stmts) => Ok(block_shape(stmts)),
    }
}

/// An expression that may be absent; nothing is written for an absent one.
pub open spec fn optional_expr_text(expr: Option<Box<Expr>>, cx: Context) -> Lowered
    decreases expr, 0nat,
{
    match expr {
        None => Ok(Seq::empty()),
        Some(expr) => expr_text(*expr, cx),
    }
}

pub open spec fn return_text(ret: ReturnStmt, cx: Context) -> Lowered
    decreases ret, 0nat,
{
    match optional_expr_text(ret.arg, cx) {
        Err(e) => Err(e),
        Ok(arg) => Ok(return_shape(cx.in_generator, arg)),
    }
}

/// The branch that is absent is written as an empty block.
pub open spec fn if_text(stmt: IfStmt, cx: Context) -> Lowered
    decreases stmt, 0nat,
{
    match expr_text(*stmt.test, cx) {
        Err(e) => Err(e),
        Ok(test) => match stmt_text(*stmt.cons, cx) {
            Err(e) => Err(e),
            Ok(cons) => match stmt.alt {
                None => Ok(if_shape(test, cons, Seq::empty())),
                Some(alt) => match stmt_text(*alt, cx) {
                    Err(e) => Err(e),
                    Ok(alt) => Ok(if_shape(test, cons, alt)),
                },
            },
        },
    }
}

pub open spec fn while_text(stmt: WhileStmt, cx: Context) -> Lowered
    decreases stmt, 0nat,
{
    match expr_text(*stmt.test, cx) {
        Err(e) => Err(e),
        Ok(test) => match stmt_text(*stmt.body, cx) {
            Err(e) => Err(e),
            Ok(body) => Ok(while_shape(test, body)),
        },
    }
}

/// What a `for` loop starts with.
pub open spec fn for_init_text(init: Option<VarDeclOrExpr>, cx: Context) -> Lowered
    decreases init, 0nat,
{
    match init {
        None => Ok(Seq::empty()),
        Some(VarDeclOrExpr::Expr(expr)) => expr_text(*expr, cx),
        Some(VarDeclOrExpr::VarDecl(decl)) => var_decl_text(decl, cx),
    }
}

/// A clause that is left out is written as nothing.
pub open spec fn for_text(stmt: ForStmt, cx: Context) -> Lowered
    decreases stmt, 0nat,
{
    match for_init_text(stmt.init, cx) {
        Err(e) => Err(e),
        Ok(init) => match optional_expr_text(stmt.test, cx) {
            Err(e) => Err(e),
            Ok(test) => match optional_expr_text(stmt.update, cx) {
                Err(e) => Err(e),
                Ok(update) => match stmt_text(*stmt.body, cx) {
                    Err(e) => Err(e),
                    Ok(body) => Ok(for_shape(init, test, update, body)),
                },
            },
        },
    }
}

/// A loop over what the runtime offers to a C++ range-for.
pub open spec fn for_of_text(stmt: ForOfStmt, cx: Context) -> Lowered
    decreases stmt, 0nat,
{
    if stmt.is_await {
        unsupported(Construct::ForAwait)
    } else {
        match stmt.left {
            ForHead::VarDecl(decl) => match var_decl_text(decl, cx) {
                Err(e) => Err(e),
                Ok(left) => match expr_text(*stmt.right, cx) {
                    Err(e) => Err(e),
                    Ok(right) => match stmt_text(*stmt.body, cx) {
                        Err(e) => Err(e),
                        Ok(body) => Ok(for_of_shape(left, right, body)),
                    },
                },
            },
            _ => unsupported(Construct::ForOfHead),
        }
    }
}

pub open spec fn throw_text(stmt: ThrowStmt, cx: Context) -> Lowered
    decreases stmt, 0nat,
{
    if !cx.exceptions {
        Err(TranspileError::FeatureGate(Gated::Throw))
    } else {
        match expr_text(*stmt.arg, cx) {
            Err(e) => Err(e),
            Ok(arg) => Ok(throw_shape(arg)),
        }
    }
}

/// A `try` with one `catch` that binds what was thrown to an identifier.
pub open spec fn try_text(stmt: TryStmt, cx: Context) -> Lowered
    decreases stmt, 0nat,
{
    if !cx.exceptions {
        Err(TranspileError::FeatureGate(Gated::Try))
    } else {
        match stmt.handler {
            None => unsupported(Construct::TryWithoutCatch),
            Some(handler) => if stmt.finalizer is Some {
                unsupported(Construct::Finally)
            } else {
                match handler.param {
                    None => unsupported(Construct::CatchWithoutBinding),
                    Some(Pat::Other(kind)) => unsupported(Construct::CatchPattern(kind)),
                    Some(Pat::Ident(ident)) => match block_text(stmt.block, cx) {
                        Err(e) => Err(e),
                        Ok(block) => match block_text(handler.body, cx) {
                            Err(e) => Err(e),
                            Ok(body) => Ok(try_shape(block, ident.sym@, body)),
                        },
                    },
                }
            },
        }
    }
}

// ----- declarations -----

pub open spec fn decl_text(decl: Decl, cx: Context) -> Lowered
    decreases decl, 0nat,
{
    match decl {
        Decl::Var(var_decl) => var_decl_text(var_decl, cx),
        Decl::Fn(fn_decl) => fn_decl_text(fn_decl, cx),
        Decl::Other(kind) => unsupported(Construct::Declaration(kind)),
    }
}

pub open spec fn fn_decl_text(decl: FnDecl, cx: Context) -> Lowered
    decreases decl, 0nat,
{
    match function_text(decl.function, cx) {
        Err(e) => Err(e),
        Ok(function) => Ok(fn_decl_shape(decl.ident.sym@, function)),
    }
}

/// Only `let` is lowered, and only with one declarator.
pub open spec fn var_decl_text(decl: VarDecl, cx: Context) -> Lowered
    decreases decl, 0nat,
{
    match decl.kind {
        VarDeclKind::Let => if decl.decls@.len() > 1 {
            unsupported(Construct::MultipleDeclarators)
        } else if decl.decls@.len() == 0 {
            malformed(Defect::Declarator)
        } else {
            var_declarator_text(decl.decls@[0], cx)
        },
        kind => unsupported(Construct::VarKind(kind)),
    }
}

pub open spec fn var_declarator_text(decl: VarDeclarator, cx: Context) -> Lowered
    decreases decl, 0nat,
{
    match decl.name {
        Pat::Other(kind) => unsupported(Construct::BindingPattern(kind)),
        Pat::Ident(ident) => match decl.init {
            None => Ok(declaration_shape(ident.sym@)),
            Some(init) => match expr_text(*init, cx) {
                Err(e) => Err(e),
                Ok(init) => Ok(initialized_shape(ident.sym@, init)),
            },
        },
    }
}

// ----- functions -----

pub open spec fn function_text(function: Function, cx: Context) -> Lowered
    decreases function, 1nat,
{
    if function.is_async {
        unsupported(Construct::AsyncFunction)
    } else if function.is_generator {
        generator_function_text(function, cx)
    } else {
        plain_function_text(function, cx)
    }
}

/// The body of a generator is lowered as such, wherever the function stands.
pub open spec fn generator_function_text(function: Function, cx: Context) -> Lowered
    decreases function, 0nat,
{
    match destructured_params(function.params@) {
        Err(e) => Err(e),
        Ok(bindings) => match function.body {
            None => malformed(Defect::FunctionBody),
            Some(block) => match block_text(
                block,
                Context { exceptions: cx.exceptions, in_generator: true },
            ) {
                Err(e) => Err(e),
                Ok(body) => Ok(generator_shape(bindings, body)),
            },
        },
    }
}

pub open spec fn plain_function_text(function: Function, cx: Context) -> Lowered
    decreases function, 0nat,
{
    match destructured_params(function.params@) {
        Err(e) => Err(e),
        Ok(bindings) => match function.body {
            None => malformed(Defect::FunctionBody),
            Some(block) => match block_text(block, cx) {
                Err(e) => Err(e),
                Ok(body) => Ok(function_shape(bindings, body)),
            },
        },
    }
}

pub open spec fn arrow_text(arrow: ArrowExpr, cx: Context) -> Lowered
    decreases arrow, 0nat,
{
    if arrow.is_async {
        unsupported(Construct::AsyncFunction)
    } else {
        match destructured_params(arrow.params@) {
            Err(e) => Err(e),
            Ok(bindings) => match arrow.body {
                BlockStmtOrExpr::Expr(expr) => match expr_text(*expr, cx) {
                    Err(e) => Err(e),
                    Ok(expr) => Ok(arrow_shape(bindings, expression_body(expr))),
                },
                BlockStmtOrExpr::BlockStmt(block) => match block_text(block, cx) {
                    Err(e) => Err(e),
                    Ok(body) => Ok(arrow_shape(bindings, body)),
                },
            },
        }
    }
}

// ----- expressions -----

pub open spec fn expr_text(expr: Expr, cx: Context) -> Lowered
    decreases expr, 0nat,
{
    match expr {
        Expr::Ident(ident) => Ok(ident.sym@),
        Expr::Lit(lit) => literal_text(lit),
        Expr::Array(array) => array_text(array, cx),
        Expr::Call(call) => call_text(call, cx),
        Expr::Member(member) => member_text(member, cx),
        Expr::Arrow(arrow) => arrow_text(arrow, cx),
        Expr::Bin(bin) => bin_text(bin, cx),
        Expr::Tpl(tpl) => tpl_text(tpl),
        Expr::TaggedTpl(tagged) => tagged_tpl_text(tagged, cx),
        Expr::Object(object) => object_text(object, cx),
        Expr::Paren(paren) => paren_text(paren, cx),
        Expr::Fn(fn_expr) => function_text(fn_expr.function, cx),
        Expr::This => Ok("thisArg"@),
        Expr::Assign(assign) => assign_text(assign, cx),
        Expr::Cond(cond) => cond_text(cond, cx),
        Expr::Update(update) => update_text(update, cx),
        Expr::Yield(yield_expr) => yield_text(yield_expr, cx),
        Expr::Other(kind) => unsupported(Construct::Expression(kind)),
    }
}

pub open spec fn yield_text(expr: YieldExpr, cx: Context) -> Lowered
    decreases expr, 0nat,
{
    if expr.delegate {
        unsupported(Construct::DelegateYield)
    } else {
        match expr.arg {
            None => Ok(yield_shape(undefined_value())),
            Some(arg) => match expr_text(*arg, cx) {
                Err(e) => Err(e),
                Ok(value) => Ok(yield_shape(value)),
            },
        }
    }
}

pub open spec fn update_text(expr: UpdateExpr, cx: Context) -> Lowered
    decreases expr, 0nat,
{
    match expr_text(*expr.arg, cx) {
        Err(e) => Err(e),
        Ok(arg) => Ok(update_shape(update_operator(expr.op), expr.prefix, arg)),
    }
}

pub open spec fn cond_text(expr: CondExpr, cx: Context) -> Lowered
    decreases expr, 0nat,
{
    match expr_text(*expr.test, cx) {
        Err(e) => Err(e),
        Ok(test) => match expr_text(*expr.cons, cx) {
            Err(e) => Err(e),
            Ok(cons) => match expr_text(*expr.alt, cx) {
                Err(e) => Err(e),
                Ok(alt) => Ok(conditional_shape(test, cons, alt)),
            },
        },
    }
}

/// What is assigned to.
pub open spec fn assign_target_text(target: AssignTarget, cx: Context) -> Lowered
    decreases target, 0nat,
{
    match target {
        AssignTarget::Expr(expr) => expr_text(*expr, cx),
        AssignTarget::Ident(ident) => Ok(ident.sym@),
        AssignTarget::Pat(kind) => unsupported(Construct::AssignPattern(kind)),
    }
}

/// Both sides are lowered before the operator is looked at.
pub open spec fn assign_text(expr: AssignExpr, cx: Context) -> Lowered
    decreases expr, 0nat,
{
    match assign_target_text(expr.left, cx) {
        Err(e) => Err(e),
        Ok(left) => match expr_text(*expr.right, cx) {
            Err(e) => Err(e),
            Ok(right) => match expr.op {
                AssignOp::Assign => Ok(assignment_shape(left, right)),
                op => unsupported(Construct::AssignOperator(op)),
            },
        },
    }
}

pub open spec fn paren_text(expr: ParenExpr, cx: Context) -> Lowered
    decreases expr, 0nat,
{
    match expr_text(*expr.expr, cx) {
        Err(e) => Err(e),
        Ok(inner) => Ok(parenthesized(inner)),
    }
}

/// Both operands are lowered before the operator is looked at.
pub open spec fn bin_text(expr: BinExpr, cx: Context) -> Lowered
    decreases expr, 0nat,
{
    match expr_text(*expr.left, cx) {
        Err(e) => Err(e),
        Ok(left) => match expr_text(*expr.right, cx) {
            Err(e) => Err(e),
            Ok(right) => match binary_operator(expr.op) {
                Err(e) => Err(e),
                Ok(op) => Ok(binary_shape(left, op, right)),
            },
        },
    }
}

/// The tag `raw_cpp` hands the text of the template to the C++ compiler as
/// it stands. No other tag is lowered.
pub open spec fn tagged_tpl_text(expr: TaggedTpl, cx: Context) -> Lowered
    decreases expr, 0nat,
{
    match expr_text(*expr.tag, cx) {
        Err(e) => Err(e),
        Ok(tag) => match tpl_text(expr.tpl) {
            Err(e) => Err(e),
            Ok(_) => if tag == "raw_cpp"@ {
                Ok(expr.tpl.quasis@[0].raw@)
            } else {
                unsupported(Construct::TaggedTemplate)
            },
        },
    }
}

pub open spec fn member_prop_text(prop: MemberProp, cx: Context) -> Lowered
    decreases prop, 0nat,
{
    match prop {
        MemberProp::Ident(ident) => Ok(string_value(ident.sym@)),
        MemberProp::Computed(expr) => expr_text(*expr, cx),
        MemberProp::PrivateName => unsupported(Construct::PrivateMember),
    }
}

/// The runtime's subscript serves reading and writing alike.
pub open spec fn member_text(expr: MemberExpr, cx: Context) -> Lowered
    decreases expr, 0nat,
{
    match expr_text(*expr.obj, cx) {
        Err(e) => Err(e),
        Ok(obj) => match member_prop_text(expr.prop, cx) {
            Err(e) => Err(e),
            Ok(key) => Ok(member_shape(obj, key)),
        },
    }
}

/// An element or argument; one written with `...` has no lowering.
pub open spec fn spreadable_text(item: ExprOrSpread, cx: Context) -> Lowered
    decreases item, 0nat,
{
    if item.spread {
        unsupported(Construct::Spread)
    } else {
        expr_text(*item.expr, cx)
    }
}

/// The copied values of the arguments from `from` on.
pub open spec fn arg_texts(args: Seq<ExprOrSpread>, from: nat, cx: Context) -> LoweredList
    decreases args, args.len() - from,
{
    if from >= args.len() {
        Ok(Seq::empty())
    } else {
        match spreadable_text(args[from as int], cx) {
            Err(e) => Err(e),
            Ok(first) => match arg_texts(args, from + 1, cx) {
                Err(e) => Err(e),
                Ok(rest) => Ok(seq![value_copy(first)] + rest),
            },
        }
    }
}

pub open spec fn call_text(expr: CallExpr, cx: Context) -> Lowered
    decreases expr, 0nat,
{
    match expr.callee {
        Callee::Other(kind) => unsupported(Construct::Callee(kind)),
        Callee::Expr(callee) => match expr_text(*callee, cx) {
            Err(e) => Err(e),
            Ok(callee) => match arg_texts(expr.args@, 0, cx) {
                Err(e) => Err(e),
                Ok(args) => Ok(call_shape(callee, args)),
            },
        },
    }
}

/// The texts of the elements from `from` on.
pub open spec fn elem_texts(elems: Seq<Option<ExprOrSpread>>, from: nat, cx: Context)
    -> LoweredList
    decreases elems, elems.len() - from,
{
    if from >= elems.len() {
        Ok(Seq::empty())
    } else {
        match elems[from as int] {
            None => Err(TranspileError::Unsupported(Construct::ArrayHole)),
            Some(item) => match spreadable_text(item, cx) {
                Err(e) => Err(e),
                Ok(first) => match elem_texts(elems, from + 1, cx) {
                    Err(e) => Err(e),
                    Ok(rest) => Ok(seq![first] + rest),
                },
            },
        }
    }
}

pub open spec fn array_text(array: ArrayLit, cx: Context) -> Lowered
    decreases array, 0nat,
{
    match elem_texts(array.elems@, 0, cx) {
        Err(e) => Err(e),
        Ok(elems) => Ok(array_shape(elems)),
    }
}

// ----- object literals -----

pub open spec fn prop_name_text(name: PropName, cx: Context) -> Lowered
    decreases name, 0nat,
{
    match name {
        PropName::Ident(ident) => Ok(string_value(ident.sym@)),
        PropName::Str(string) => match string_content(string) {
            Err(e) => Err(e),
            Ok(content) => Ok(quoted(content)),
        },
        PropName::Computed(expr) => expr_text(*expr, cx),
        PropName::Other(kind) => unsupported(Construct::PropertyName(kind)),
    }
}

pub open spec fn shorthand_text(ident: crate::ast::Ident) -> Lowered {
    Ok(entry_shape(string_value(ident.sym@), ident.sym@))
}

pub open spec fn key_value_text(prop: KeyValueProp, cx: Context) -> Lowered
    decreases prop, 0nat,
{
    match prop_name_text(prop.key, cx) {
        Err(e) => Err(e),
        Ok(key) => match expr_text(*prop.value, cx) {
            Err(e) => Err(e),
            Ok(value) => Ok(entry_shape(key, value)),
        },
    }
}

pub open spec fn method_text(prop: MethodProp, cx: Context) -> Lowered
    decreases prop, 0nat,
{
    match prop_name_text(prop.key, cx) {
        Err(e) => Err(e),
        Ok(key) => match function_text(prop.function, cx) {
            Err(e) => Err(e),
            Ok(function) => Ok(entry_shape(key, function)),
        },
    }
}

/// A getter is a function without parameters; the property has no setter.
pub open spec fn getter_text(prop: GetterProp, cx: Context) -> Lowered
    decreases prop, 0nat,
{
    match prop_name_text(prop.key, cx) {
        Err(e) => Err(e),
        Ok(key) => match prop.body {
            None => malformed(Defect::GetterBody),
            Some(block) => match block_text(block, cx) {
                Err(e) => Err(e),
                Ok(body) => Ok(
                    entry_shape(
                        key,
                        accessors_shape(function_shape(Seq::empty(), body), undefined_value()),
                    ),
                ),
            },
        },
    }
}

/// A setter is a function of one parameter; the property has no getter.
pub open spec fn setter_text(prop: SetterProp, cx: Context) -> Lowered
    decreases prop, 0nat,
{
    match prop.param {
        Pat::Other(_) => malformed(Defect::SetterParameter),
        Pat::Ident(ident) => match prop_name_text(prop.key, cx) {
            Err(e) => Err(e),
            Ok(key) => match prop.body {
                None => malformed(Defect::SetterBody),
                Some(block) => match block_text(block, cx) {
                    Err(e) => Err(e),
                    Ok(body) => Ok(
                        entry_shape(
                            key,
                            accessors_shape(
                                undefined_value(),
                                function_shape(param_binding(ident.sym@, 0), body),
                            ),
                        ),
                    ),
                },
            },
        },
    }
}

pub open spec fn prop_text(prop: PropOrSpread, cx: Context) -> Lowered
    decreases prop, 0nat,
{
    match prop {
        PropOrSpread::Spread => unsupported(Construct::ObjectSpread),
        PropOrSpread::Prop(Prop::Shorthand(ident)) => shorthand_text(ident),
        PropOrSpread::Prop(Prop::KeyValue(key_value)) => key_value_text(key_value, cx),
        PropOrSpread::Prop(Prop::Getter(getter)) => getter_text(getter, cx),
        PropOrSpread::Prop(Prop::Setter(setter)) => setter_text(setter, cx),
        PropOrSpread::Prop(Prop::Method(method)) => method_text(method, cx),
        PropOrSpread::Prop(Prop::Assign) => unsupported(Construct::AssignProperty),
    }
}

/// The entries for the properties from `from` on.
pub open spec fn prop_texts(props: Seq<PropOrSpread>, from: nat, cx: Context) -> LoweredList
    decreases props, props.len() - from,
{
    if from >= props.len() {
        Ok(Seq::empty())
    } else {
        match prop_text(props[from as int], cx) {
            Err(e) => Err(e),
            Ok(first) => match prop_texts(props, from + 1, cx) {
                Err(e) => Err(e),
                Ok(rest) => Ok(seq![first] + rest),
            },
        }
    }
}

pub open spec fn object_text(object: ObjectLit, cx: Context) -> Lowered
    decreases object, 0nat,
{
    match prop_texts(object.props@, 0, cx) {
        Err(e) => Err(e),
        Ok(entries) => Ok(object_shape(entries)),
    }
}

// ----- module items -----

/// The texts of the module's statements from `from` on. An import or export
/// has no lowering.
pub open spec fn item_texts(items: Seq<ModuleItem>, from: nat, cx: Context) -> LoweredList
    decreases items.len() - from,
{
    if from >= items.len() {
        Ok(Seq::empty())
    } else {
        match items[from as int] {
            ModuleItem::ModuleDecl(kind) => Err(
                TranspileError::Unsupported(Construct::ModuleDeclaration(kind)),
            ),
            ModuleItem::Stmt(stmt) => match stmt_text(stmt, cx) {
                Err(e) => Err(e),
                Ok(first) => match item_texts(items, from + 1, cx) {
                    Err(e) => Err(e),
                    Ok(rest) => Ok(seq![first] + rest),
                },
            },
        }
    }
}

} // verus!
