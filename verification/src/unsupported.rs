//! Where a tree holds a construct that has no lowering.
//!
//! The predicates of this module look for such a construct in a node and in
//! everything below it; read them with the module's name, as in
//! `unsupported::in_stmt`. The laws at the end say that a tree with one is
//! never translated.

use vstd::prelude::*;
use crate::assembly::module_text;
use crate::ast::{
    ArrayLit, ArrowExpr, AssignExpr, AssignOp, AssignTarget, BinExpr, BinaryOp, BlockStmt,
    BlockStmtOrExpr, CallExpr, Callee, CondExpr, Decl, Expr, ExprOrSpread, ForHead, ForOfStmt,
    ForStmt, Function, GetterProp, IfStmt, KeyValueProp, Lit, MemberExpr, MemberProp, MethodProp,
    Module, ModuleItem, ObjectLit, ParenExpr, Pat, Prop, PropName, PropOrSpread, ReturnStmt,
    SetterProp, Stmt, TaggedTpl, ThrowStmt, Tpl, TryStmt, UpdateExpr, VarDecl, VarDeclKind,
    VarDeclOrExpr, VarDeclarator, WhileStmt, YieldExpr,
};
use crate::error::TranspileError;
use crate::lowering::{
    arg_texts, array_text, arrow_text, assign_target_text, assign_text, bin_text, binary_operator,
    block_text, call_text, cond_text, decl_text, destructured_params, elem_texts, expr_text,
    for_init_text, for_of_text, for_text, function_text, generator_function_text, getter_text,
    if_text, item_texts, key_value_text, member_prop_text, member_text, method_text, object_text,
    optional_expr_text, param_bindings, paren_text, plain_function_text, prop_name_text, prop_text,
    prop_texts, return_text, setter_text, spreadable_text, stmt_body_text, stmt_text, stmt_texts,
    tagged_tpl_text, throw_text, try_text, update_text, var_decl_text, var_declarator_text,
    while_text, yield_text, Context,
};

verus! {

// ----- where a construct without a lowering stands -----

pub open spec fn in_literal(lit: Lit) -> bool {
    lit is Other
}

pub open spec fn in_tpl(tpl: Tpl) -> bool {
    tpl.exprs@.len() > 0 || tpl.quasis@.len() > 1
}

pub open spec fn in_binary_operator(op: BinaryOp) -> bool {
    binary_operator(op) is Err
}

pub open spec fn in_params(params: Seq<Pat>) -> bool {
    exists|i: int| 0 <= i < params.len() && (#[trigger] params[i]) is Other
}

pub open spec fn in_stmts(stmts: Seq<Stmt>) -> bool
    decreases stmts,
{
    exists|i: int| 0 <= i < stmts.len() && in_stmt(#[trigger] stmts[i])
}

pub open spec fn in_block(block: BlockStmt) -> bool
    decreases block,
{
    in_stmts(block.stmts@)
}

pub open spec fn in_optional_block(block: Option<BlockStmt>) -> bool
    decreases block,
{
    match block {
        None => false,
        Some(block) => in_block(block),
    }
}

pub open spec fn in_optional_expr(expr: Option<Box<Expr>>) -> bool
    decreases expr,
{
    match expr {
        None => false,
        Some(expr) => in_expr(*expr),
    }
}

pub open spec fn in_optional_stmt(stmt: Option<Box<Stmt>>) -> bool
    decreases stmt,
{
    match stmt {
        None => false,
        Some(stmt) => in_stmt(*stmt),
    }
}

pub open spec fn in_var_declarator(decl: VarDeclarator) -> bool
    decreases decl,
{
    decl.name is Other || in_optional_expr(decl.init)
}

pub open spec fn in_var_decl(decl: VarDecl) -> bool
    decreases decl,
{
    decl.kind != VarDeclKind::Let || decl.decls@.len() > 1 || (decl.decls@.len() == 1
        && in_var_declarator(decl.decls@[0]))
}

pub open spec fn in_for_init(init: Option<VarDeclOrExpr>) -> bool
    decreases init,
{
    match init {
        None => false,
        Some(VarDeclOrExpr::VarDecl(decl)) => in_var_decl(decl),
        Some(VarDeclOrExpr::Expr(expr)) => in_expr(*expr),
    }
}

pub open spec fn in_for_head(head: ForHead) -> bool
    decreases head,
{
    match head {
        ForHead::VarDecl(decl) => in_var_decl(decl),
        _ => true,
    }
}

pub open spec fn in_function(function: Function) -> bool
    decreases function,
{
    function.is_async || in_params(function.params@) || in_optional_block(function.body)
}

pub open spec fn in_decl(decl: Decl) -> bool
    decreases decl,
{
    match decl {
        Decl::Var(decl) => in_var_decl(decl),
        Decl::Fn(decl) => in_function(decl.function),
        Decl::Other(_) => true,
    }
}

pub open spec fn in_try(stmt: TryStmt) -> bool
    decreases stmt,
{
    stmt.finalizer is Some || match stmt.handler {
        None => true,
        Some(handler) => !(handler.param matches Some(Pat::Ident(_))) || in_block(stmt.block)
            || in_block(handler.body),
    }
}

pub open spec fn in_stmt(stmt: Stmt) -> bool
    decreases stmt,
{
    match stmt {
        Stmt::Decl(decl) => in_decl(decl),
        Stmt::Expr(stmt) => in_expr(*stmt.expr),
        Stmt::Block(block) => in_block(block),
        Stmt::Return(stmt) => in_optional_expr(stmt.arg),
        Stmt::If(stmt) => in_expr(*stmt.test) || in_stmt(*stmt.cons) || in_optional_stmt(
            stmt.alt,
        ),
        Stmt::For(stmt) => in_for_init(stmt.init) || in_optional_expr(stmt.test)
            || in_optional_expr(stmt.update) || in_stmt(*stmt.body),
        Stmt::ForOf(stmt) => stmt.is_await || in_for_head(stmt.left) || in_expr(*stmt.right)
            || in_stmt(*stmt.body),
        Stmt::While(stmt) => in_expr(*stmt.test) || in_stmt(*stmt.body),
        Stmt::Break(stmt) => stmt.label is Some,
        Stmt::Throw(stmt) => in_expr(*stmt.arg),
        Stmt::Try(stmt) => in_try(stmt),
        Stmt::Other(_) => true,
    }
}

pub open spec fn in_spreadable(item: ExprOrSpread) -> bool
    decreases item,
{
    item.spread || in_expr(*item.expr)
}

pub open spec fn in_args(args: Seq<ExprOrSpread>) -> bool
    decreases args,
{
    exists|i: int| 0 <= i < args.len() && in_spreadable(#[trigger] args[i])
}

pub open spec fn in_elem(elem: Option<ExprOrSpread>) -> bool
    decreases elem,
{
    match elem {
        None => true,
        Some(item) => in_spreadable(item),
    }
}

pub open spec fn in_elems(elems: Seq<Option<ExprOrSpread>>) -> bool
    decreases elems,
{
    exists|i: int| 0 <= i < elems.len() && in_elem(#[trigger] elems[i])
}

pub open spec fn in_prop_name(name: PropName) -> bool
    decreases name,
{
    match name {
        PropName::Computed(expr) => in_expr(*expr),
        PropName::Other(_) => true,
        _ => false,
    }
}

pub open spec fn in_prop(prop: PropOrSpread) -> bool
    decreases prop,
{
    match prop {
        PropOrSpread::Spread => true,
        PropOrSpread::Prop(Prop::Shorthand(_)) => false,
        PropOrSpread::Prop(Prop::KeyValue(prop)) => in_prop_name(prop.key) || in_expr(
            *prop.value,
        ),
        PropOrSpread::Prop(Prop::Getter(prop)) => in_prop_name(prop.key) || in_optional_block(
            prop.body,
        ),
        PropOrSpread::Prop(Prop::Setter(prop)) => in_prop_name(prop.key) || in_optional_block(
            prop.body,
        ),
        PropOrSpread::Prop(Prop::Method(prop)) => in_prop_name(prop.key) || in_function(
            prop.function,
        ),
        PropOrSpread::Prop(Prop::Assign) => true,
    }
}

pub open spec fn in_props(props: Seq<PropOrSpread>) -> bool
    decreases props,
{
    exists|i: int| 0 <= i < props.len() && in_prop(#[trigger] props[i])
}

pub open spec fn in_assign_target(target: AssignTarget) -> bool
    decreases target,
{
    match target {
        AssignTarget::Expr(expr) => in_expr(*expr),
        AssignTarget::Ident(_) => false,
        AssignTarget::Pat(_) => true,
    }
}

pub open spec fn in_member_prop(prop: MemberProp) -> bool
    decreases prop,
{
    match prop {
        MemberProp::Ident(_) => false,
        MemberProp::Computed(expr) => in_expr(*expr),
        MemberProp::PrivateName => true,
    }
}

pub open spec fn in_callee(callee: Callee) -> bool
    decreases callee,
{
    match callee {
        Callee::Expr(expr) => in_expr(*expr),
        Callee::Other(_) => true,
    }
}

pub open spec fn in_arrow_body(body: BlockStmtOrExpr) -> bool
    decreases body,
{
    match body {
        BlockStmtOrExpr::BlockStmt(block) => in_block(block),
        BlockStmtOrExpr::Expr(expr) => in_expr(*expr),
    }
}

/// A tag that is an identifier other than `raw_cpp` has no lowering.
pub open spec fn in_tagged_tpl(expr: TaggedTpl) -> bool
    decreases expr,
{
    in_expr(*expr.tag) || in_tpl(expr.tpl) || (*expr.tag matches Expr::Ident(tag) && tag.sym@
        != "raw_cpp"@)
}

pub open spec fn in_expr(expr: Expr) -> bool
    decreases expr,
{
    match expr {
        Expr::This => false,
        Expr::Ident(_) => false,
        Expr::Lit(lit) => in_literal(lit),
        Expr::Array(array) => in_elems(array.elems@),
        Expr::Object(object) => in_props(object.props@),
        Expr::Fn(expr) => in_function(expr.function),
        Expr::Update(expr) => in_expr(*expr.arg),
        Expr::Bin(expr) => in_expr(*expr.left) || in_expr(*expr.right) || in_binary_operator(
            expr.op,
        ),
        Expr::Assign(expr) => in_assign_target(expr.left) || in_expr(*expr.right) || expr.op
            != AssignOp::Assign,
        Expr::Member(expr) => in_expr(*expr.obj) || in_member_prop(expr.prop),
        Expr::Cond(expr) => in_expr(*expr.test) || in_expr(*expr.cons) || in_expr(*expr.alt),
        Expr::Call(expr) => in_callee(expr.callee) || in_args(expr.args@),
        Expr::Tpl(tpl) => in_tpl(tpl),
        Expr::TaggedTpl(expr) => in_tagged_tpl(expr),
        Expr::Arrow(arrow) => arrow.is_async || in_params(arrow.params@) || in_arrow_body(
            arrow.body,
        ),
        Expr::Yield(expr) => expr.delegate || in_optional_expr(expr.arg),
        Expr::Paren(expr) => in_expr(*expr.expr),
        Expr::Other(_) => true,
    }
}

pub open spec fn in_item(item: ModuleItem) -> bool {
    match item {
        ModuleItem::Stmt(stmt) => in_stmt(stmt),
        ModuleItem::ModuleDecl(_) => true,
    }
}

/// Whether the module holds a construct that has no lowering.
pub open spec fn in_module(module: Module) -> bool {
    exists|i: int| 0 <= i < module.body@.len() && in_item(#[trigger] module.body@[i])
}

// ----- what holds of a tree with such a construct -----

/// What the laws of this module say of a lowering: it fails where the node
/// is flagged, and it does not fail for want of exceptions while they are
/// enabled.
pub open spec fn obeys<T>(flagged: bool, cx: Context, result: Result<T, TranspileError>) -> bool {
    &&& flagged ==> result is Err
    &&& cx.exceptions ==> !(result matches Err(TranspileError::FeatureGate(_)))
}

proof fn lemma_params(params: Seq<Pat>, from: nat)
    ensures
        (exists|i: int| from <= i < params.len() && (#[trigger] params[i]) is Other)
            ==> param_bindings(params, from) is Err,
        !(param_bindings(params, from) matches Err(TranspileError::FeatureGate(_))),
    decreases params.len() - from,
{
    if from < params.len() {
        lemma_params(params, from + 1);
        if exists|i: int| from <= i < params.len() && (#[trigger] params[i]) is Other {
            let i = choose|i: int| from <= i < params.len() && (#[trigger] params[i]) is Other;
            if i != from {
                assert(from + 1 <= i < params.len() && params[i] is Other);
            }
        }
    }
}

proof fn lemma_destructured(params: Seq<Pat>, cx: Context)
    ensures
        obeys(in_params(params), cx, destructured_params(params)),
{
    lemma_params(params, 0);
}

proof fn lemma_stmt(node: Stmt, cx: Context)
    ensures
        obeys(in_stmt(node), cx, stmt_text(node, cx)),
    decreases node, 1nat,
{
    lemma_stmt_body(node, cx);
}

proof fn lemma_stmt_body(node: Stmt, cx: Context)
    ensures
        obeys(in_stmt(node), cx, stmt_body_text(node, cx)),
    decreases node, 0nat,
{
    match node {
        Stmt::Decl(decl) => lemma_decl(decl, cx),
        Stmt::Expr(stmt) => lemma_expr(*stmt.expr, cx),
        Stmt::Block(block) => lemma_block(block, cx),
        Stmt::Return(stmt) => lemma_return(stmt, cx),
        Stmt::If(stmt) => lemma_if(stmt, cx),
        Stmt::For(stmt) => lemma_for(stmt, cx),
        Stmt::ForOf(stmt) => lemma_for_of(stmt, cx),
        Stmt::While(stmt) => lemma_while(stmt, cx),
        Stmt::Break(_) => {},
        Stmt::Throw(stmt) => lemma_throw(stmt, cx),
        Stmt::Try(stmt) => lemma_try(stmt, cx),
        Stmt::Other(_) => {},
    }
}

proof fn lemma_stmts(list: Seq<Stmt>, from: nat, cx: Context)
    ensures
        obeys(
            exists|i: int| from <= i < list.len() && in_stmt(#[trigger] list[i]),
            cx,
            stmt_texts(list, from, cx),
        ),
    decreases list, list.len() - from,
{
    if from < list.len() {
        lemma_stmt(list[from as int], cx);
        lemma_stmts(list, from + 1, cx);
        if exists|i: int| from <= i < list.len() && in_stmt(#[trigger] list[i]) {
            let i = choose|i: int| from <= i < list.len() && in_stmt(#[trigger] list[i]);
            if i != from {
                assert(from + 1 <= i < list.len() && in_stmt(list[i]));
            }
        }
    }
}

proof fn lemma_block(node: BlockStmt, cx: Context)
    ensures
        obeys(in_block(node), cx, block_text(node, cx)),
    decreases node, 0nat,
{
    lemma_stmts(node.stmts@, 0, cx);
}

proof fn lemma_optional_expr(node: Option<Box<Expr>>, cx: Context)
    ensures
        obeys(in_optional_expr(node), cx, optional_expr_text(node, cx)),
    decreases node, 0nat,
{
    if let Some(expr) = node {
        lemma_expr(*expr, cx);
    }
}

proof fn lemma_return(node: ReturnStmt, cx: Context)
    ensures
        obeys(in_optional_expr(node.arg), cx, return_text(node, cx)),
    decreases node, 0nat,
{
    lemma_optional_expr(node.arg, cx);
}

proof fn lemma_if(node: IfStmt, cx: Context)
    ensures
        obeys(
            in_expr(*node.test) || in_stmt(*node.cons) || in_optional_stmt(node.alt),
            cx,
            if_text(node, cx),
        ),
    decreases node, 0nat,
{
    lemma_expr(*node.test, cx);
    lemma_stmt(*node.cons, cx);
    if let Some(alt) = node.alt {
        lemma_stmt(*alt, cx);
    }
}

proof fn lemma_while(node: WhileStmt, cx: Context)
    ensures
        obeys(in_expr(*node.test) || in_stmt(*node.body), cx, while_text(node, cx)),
    decreases node, 0nat,
{
    lemma_expr(*node.test, cx);
    lemma_stmt(*node.body, cx);
}

proof fn lemma_for_init(node: Option<VarDeclOrExpr>, cx: Context)
    ensures
        obeys(in_for_init(node), cx, for_init_text(node, cx)),
    decreases node, 0nat,
{
    match node {
        None => {},
        Some(VarDeclOrExpr::Expr(expr)) => lemma_expr(*expr, cx),
        Some(VarDeclOrExpr::VarDecl(decl)) => lemma_var_decl(decl, cx),
    }
}

proof fn lemma_for(node: ForStmt, cx: Context)
    ensures
        obeys(
            in_for_init(node.init) || in_optional_expr(node.test) || in_optional_expr(
                node.update,
            ) || in_stmt(*node.body),
            cx,
            for_text(node, cx),
        ),
    decreases node, 0nat,
{
    lemma_for_init(node.init, cx);
    lemma_optional_expr(node.test, cx);
    lemma_optional_expr(node.update, cx);
    lemma_stmt(*node.body, cx);
}

proof fn lemma_for_of(node: ForOfStmt, cx: Context)
    ensures
        obeys(
            node.is_await || in_for_head(node.left) || in_expr(*node.right) || in_stmt(
                *node.body,
            ),
            cx,
            for_of_text(node, cx),
        ),
    decreases node, 0nat,
{
    if let ForHead::VarDecl(decl) = node.left {
        lemma_var_decl(decl, cx);
    }
    lemma_expr(*node.right, cx);
    lemma_stmt(*node.body, cx);
}

proof fn lemma_throw(node: ThrowStmt, cx: Context)
    ensures
        obeys(in_expr(*node.arg), cx, throw_text(node, cx)),
    decreases node, 0nat,
{
    lemma_expr(*node.arg, cx);
}

proof fn lemma_try(node: TryStmt, cx: Context)
    ensures
        obeys(in_try(node), cx, try_text(node, cx)),
    decreases node, 0nat,
{
    lemma_block(node.block, cx);
    if let Some(handler) = node.handler {
        lemma_block(handler.body, cx);
    }
}

proof fn lemma_decl(node: Decl, cx: Context)
    ensures
        obeys(in_decl(node), cx, decl_text(node, cx)),
    decreases node, 0nat,
{
    match node {
        Decl::Var(decl) => lemma_var_decl(decl, cx),
        Decl::Fn(decl) => lemma_function(decl.function, cx),
        Decl::Other(_) => {},
    }
}

proof fn lemma_var_decl(node: VarDecl, cx: Context)
    ensures
        obeys(in_var_decl(node), cx, var_decl_text(node, cx)),
    decreases node, 0nat,
{
    if node.decls@.len() == 1 {
        lemma_var_declarator(node.decls@[0], cx);
    }
}

proof fn lemma_var_declarator(node: VarDeclarator, cx: Context)
    ensures
        obeys(in_var_declarator(node), cx, var_declarator_text(node, cx)),
    decreases node, 0nat,
{
    lemma_optional_expr(node.init, cx);
}

proof fn lemma_function(node: Function, cx: Context)
    ensures
        obeys(in_function(node), cx, function_text(node, cx)),
    decreases node, 1nat,
{
    if node.is_generator {
        lemma_generator_function(node, cx);
    } else {
        lemma_plain_function(node, cx);
    }
}

proof fn lemma_generator_function(node: Function, cx: Context)
    ensures
        obeys(
            in_params(node.params@) || in_optional_block(node.body),
            cx,
            generator_function_text(node, cx),
        ),
    decreases node, 0nat,
{
    lemma_destructured(node.params@, cx);
    if let Some(block) = node.body {
        lemma_block(block, Context { exceptions: cx.exceptions, in_generator: true });
    }
}

proof fn lemma_plain_function(node: Function, cx: Context)
    ensures
        obeys(
            in_params(node.params@) || in_optional_block(node.body),
            cx,
            plain_function_text(node, cx),
        ),
    decreases node, 0nat,
{
    lemma_destructured(node.params@, cx);
    if let Some(block) = node.body {
        lemma_block(block, cx);
    }
}

proof fn lemma_arrow(node: ArrowExpr, cx: Context)
    ensures
        obeys(
            node.is_async || in_params(node.params@) || in_arrow_body(node.body),
            cx,
            arrow_text(node, cx),
        ),
    decreases node, 0nat,
{
    lemma_destructured(node.params@, cx);
    match node.body {
        BlockStmtOrExpr::Expr(expr) => lemma_expr(*expr, cx),
        BlockStmtOrExpr::BlockStmt(block) => lemma_block(block, cx),
    }
}

proof fn lemma_expr(node: Expr, cx: Context)
    ensures
        obeys(in_expr(node), cx, expr_text(node, cx)),
    decreases node, 0nat,
{
    match node {
        Expr::Ident(_) => {},
        Expr::Lit(_) => {},
        Expr::Array(array) => lemma_array(array, cx),
        Expr::Call(call) => lemma_call(call, cx),
        Expr::Member(member) => lemma_member(member, cx),
        Expr::Arrow(arrow) => lemma_arrow(arrow, cx),
        Expr::Bin(bin) => lemma_bin(bin, cx),
        Expr::Tpl(_) => {},
        Expr::TaggedTpl(tagged) => lemma_tagged_tpl(tagged, cx),
        Expr::Object(object) => lemma_object(object, cx),
        Expr::Paren(paren) => lemma_paren(paren, cx),
        Expr::Fn(expr) => lemma_function(expr.function, cx),
        Expr::This => {},
        Expr::Assign(assign) => lemma_assign(assign, cx),
        Expr::Cond(cond) => lemma_cond(cond, cx),
        Expr::Update(update) => lemma_update(update, cx),
        Expr::Yield(yield_expr) => lemma_yield(yield_expr, cx),
        Expr::Other(_) => {},
    }
}

proof fn lemma_yield(node: YieldExpr, cx: Context)
    ensures
        obeys(node.delegate || in_optional_expr(node.arg), cx, yield_text(node, cx)),
    decreases node, 0nat,
{
    if let Some(arg) = node.arg {
        lemma_expr(*arg, cx);
    }
}

proof fn lemma_update(node: UpdateExpr, cx: Context)
    ensures
        obeys(in_expr(*node.arg), cx, update_text(node, cx)),
    decreases node, 0nat,
{
    lemma_expr(*node.arg, cx);
}

proof fn lemma_cond(node: CondExpr, cx: Context)
    ensures
        obeys(
            in_expr(*node.test) || in_expr(*node.cons) || in_expr(*node.alt),
            cx,
            cond_text(node, cx),
        ),
    decreases node, 0nat,
{
    lemma_expr(*node.test, cx);
    lemma_expr(*node.cons, cx);
    lemma_expr(*node.alt, cx);
}

proof fn lemma_assign_target(node: AssignTarget, cx: Context)
    ensures
        obeys(in_assign_target(node), cx, assign_target_text(node, cx)),
    decreases node, 0nat,
{
    if let AssignTarget::Expr(expr) = node {
        lemma_expr(*expr, cx);
    }
}

proof fn lemma_assign(node: AssignExpr, cx: Context)
    ensures
        obeys(
            in_assign_target(node.left) || in_expr(*node.right) || node.op != AssignOp::Assign,
            cx,
            assign_text(node, cx),
        ),
    decreases node, 0nat,
{
    lemma_assign_target(node.left, cx);
    lemma_expr(*node.right, cx);
}

proof fn lemma_paren(node: ParenExpr, cx: Context)
    ensures
        obeys(in_expr(*node.expr), cx, paren_text(node, cx)),
    decreases node, 0nat,
{
    lemma_expr(*node.expr, cx);
}

proof fn lemma_bin(node: BinExpr, cx: Context)
    ensures
        obeys(
            in_expr(*node.left) || in_expr(*node.right) || in_binary_operator(node.op),
            cx,
            bin_text(node, cx),
        ),
    decreases node, 0nat,
{
    lemma_expr(*node.left, cx);
    lemma_expr(*node.right, cx);
}

proof fn lemma_tagged_tpl(node: TaggedTpl, cx: Context)
    ensures
        obeys(in_tagged_tpl(node), cx, tagged_tpl_text(node, cx)),
    decreases node, 0nat,
{
    lemma_expr(*node.tag, cx);
}

proof fn lemma_member_prop(node: MemberProp, cx: Context)
    ensures
        obeys(in_member_prop(node), cx, member_prop_text(node, cx)),
    decreases node, 0nat,
{
    if let MemberProp::Computed(expr) = node {
        lemma_expr(*expr, cx);
    }
}

proof fn lemma_member(node: MemberExpr, cx: Context)
    ensures
        obeys(in_expr(*node.obj) || in_member_prop(node.prop), cx, member_text(node, cx)),
    decreases node, 0nat,
{
    lemma_expr(*node.obj, cx);
    lemma_member_prop(node.prop, cx);
}

proof fn lemma_spreadable(node: ExprOrSpread, cx: Context)
    ensures
        obeys(in_spreadable(node), cx, spreadable_text(node, cx)),
    decreases node, 0nat,
{
    lemma_expr(*node.expr, cx);
}

proof fn lemma_args(list: Seq<ExprOrSpread>, from: nat, cx: Context)
    ensures
        obeys(
            exists|i: int| from <= i < list.len() && in_spreadable(#[trigger] list[i]),
            cx,
            arg_texts(list, from, cx),
        ),
    decreases list, list.len() - from,
{
    if from < list.len() {
        lemma_spreadable(list[from as int], cx);
        lemma_args(list, from + 1, cx);
        if exists|i: int| from <= i < list.len() && in_spreadable(#[trigger] list[i]) {
            let i = choose|i: int| from <= i < list.len() && in_spreadable(#[trigger] list[i]);
            if i != from {
                assert(from + 1 <= i < list.len() && in_spreadable(list[i]));
            }
        }
    }
}

proof fn lemma_call(node: CallExpr, cx: Context)
    ensures
        obeys(in_callee(node.callee) || in_args(node.args@), cx, call_text(node, cx)),
    decreases node, 0nat,
{
    if let Callee::Expr(callee) = node.callee {
        lemma_expr(*callee, cx);
    }
    lemma_args(node.args@, 0, cx);
}

proof fn lemma_elems(list: Seq<Option<ExprOrSpread>>, from: nat, cx: Context)
    ensures
        obeys(
            exists|i: int| from <= i < list.len() && in_elem(#[trigger] list[i]),
            cx,
            elem_texts(list, from, cx),
        ),
    decreases list, list.len() - from,
{
    if from < list.len() {
        if let Some(item) = list[from as int] {
            lemma_spreadable(item, cx);
        }
        lemma_elems(list, from + 1, cx);
        if exists|i: int| from <= i < list.len() && in_elem(#[trigger] list[i]) {
            let i = choose|i: int| from <= i < list.len() && in_elem(#[trigger] list[i]);
            if i != from {
                assert(from + 1 <= i < list.len() && in_elem(list[i]));
            }
        }
    }
}

proof fn lemma_array(node: ArrayLit, cx: Context)
    ensures
        obeys(in_elems(node.elems@), cx, array_text(node, cx)),
    decreases node, 0nat,
{
    lemma_elems(node.elems@, 0, cx);
}

proof fn lemma_prop_name(node: PropName, cx: Context)
    ensures
        obeys(in_prop_name(node), cx, prop_name_text(node, cx)),
    decreases node, 0nat,
{
    if let PropName::Computed(expr) = node {
        lemma_expr(*expr, cx);
    }
}

proof fn lemma_key_value(node: KeyValueProp, cx: Context)
    ensures
        obeys(in_prop_name(node.key) || in_expr(*node.value), cx, key_value_text(node, cx)),
    decreases node, 0nat,
{
    lemma_prop_name(node.key, cx);
    lemma_expr(*node.value, cx);
}

proof fn lemma_method(node: MethodProp, cx: Context)
    ensures
        obeys(in_prop_name(node.key) || in_function(node.function), cx, method_text(node, cx)),
    decreases node, 0nat,
{
    lemma_prop_name(node.key, cx);
    lemma_function(node.function, cx);
}

proof fn lemma_getter(node: GetterProp, cx: Context)
    ensures
        obeys(
            in_prop_name(node.key) || in_optional_block(node.body),
            cx,
            getter_text(node, cx),
        ),
    decreases node, 0nat,
{
    lemma_prop_name(node.key, cx);
    if let Some(block) = node.body {
        lemma_block(block, cx);
    }
}

proof fn lemma_setter(node: SetterProp, cx: Context)
    ensures
        obeys(
            in_prop_name(node.key) || in_optional_block(node.body),
            cx,
            setter_text(node, cx),
        ),
    decreases node, 0nat,
{
    lemma_prop_name(node.key, cx);
    if let Some(block) = node.body {
        lemma_block(block, cx);
    }
}

proof fn lemma_prop(node: PropOrSpread, cx: Context)
    ensures
        obeys(in_prop(node), cx, prop_text(node, cx)),
    decreases node, 0nat,
{
    match node {
        PropOrSpread::Prop(Prop::KeyValue(prop)) => lemma_key_value(prop, cx),
        PropOrSpread::Prop(Prop::Getter(prop)) => lemma_getter(prop, cx),
        PropOrSpread::Prop(Prop::Setter(prop)) => lemma_setter(prop, cx),
        PropOrSpread::Prop(Prop::Method(prop)) => lemma_method(prop, cx),
        _ => {},
    }
}

proof fn lemma_props(list: Seq<PropOrSpread>, from: nat, cx: Context)
    ensures
        obeys(
            exists|i: int| from <= i < list.len() && in_prop(#[trigger] list[i]),
            cx,
            prop_texts(list, from, cx),
        ),
    decreases list, list.len() - from,
{
    if from < list.len() {
        lemma_prop(list[from as int], cx);
        lemma_props(list, from + 1, cx);
        if exists|i: int| from <= i < list.len() && in_prop(#[trigger] list[i]) {
            let i = choose|i: int| from <= i < list.len() && in_prop(#[trigger] list[i]);
            if i != from {
                assert(from + 1 <= i < list.len() && in_prop(list[i]));
            }
        }
    }
}

proof fn lemma_object(node: ObjectLit, cx: Context)
    ensures
        obeys(in_props(node.props@), cx, object_text(node, cx)),
    decreases node, 0nat,
{
    lemma_props(node.props@, 0, cx);
}

proof fn lemma_items(list: Seq<ModuleItem>, from: nat, cx: Context)
    ensures
        obeys(
            exists|i: int| from <= i < list.len() && in_item(#[trigger] list[i]),
            cx,
            item_texts(list, from, cx),
        ),
    decreases list.len() - from,
{
    if from < list.len() {
        if let ModuleItem::Stmt(stmt) = list[from as int] {
            lemma_stmt(stmt, cx);
        }
        lemma_items(list, from + 1, cx);
        if exists|i: int| from <= i < list.len() && in_item(#[trigger] list[i]) {
            let i = choose|i: int| from <= i < list.len() && in_item(#[trigger] list[i]);
            if i != from {
                assert(from + 1 <= i < list.len() && in_item(list[i]));
            }
        }
    }
}

/// A statement that holds a construct without a lowering is not translated,
/// wherever in it the construct stands and whatever the context.
pub proof fn lemma_unsupported_stmt_fails(stmt: Stmt, cx: Context)
    requires
        in_stmt(stmt),
    ensures
        stmt_text(stmt, cx) is Err,
{
    lemma_stmt(stmt, cx);
}

/// An expression that holds a construct without a lowering is not
/// translated, wherever in it the construct stands and whatever the context.
pub proof fn lemma_unsupported_expr_fails(expr: Expr, cx: Context)
    requires
        in_expr(expr),
    ensures
        expr_text(expr, cx) is Err,
{
    lemma_expr(expr, cx);
}

/// While exceptions are enabled, no translation fails for want of them.
pub proof fn lemma_no_gate_with_exceptions(
    globals: Seq<crate::globals::GlobalView>,
    module: Module,
)
    ensures
        !(module_text(globals, true, module) matches Err(TranspileError::FeatureGate(_))),
{
    lemma_items(module.body@, 0, Context { exceptions: true, in_generator: false });
}

/// A module that holds a construct without a lowering is not translated:
/// there is a failure and no text. The failure is `Unsupported` unless it is
/// `Malformed`, for a child that is missing and is met first, or, with
/// exceptions disabled, `FeatureGate`, for a `throw` or `try` that is met
/// first.
pub proof fn lemma_unsupported_module_fails(
    globals: Seq<crate::globals::GlobalView>,
    exceptions: bool,
    module: Module,
)
    requires
        in_module(module),
    ensures
        module_text(globals, exceptions, module) is Err,
        exceptions && !(module_text(globals, exceptions, module) matches Err(
            TranspileError::Malformed(_),
        )) ==> module_text(globals, exceptions, module) matches Err(
            TranspileError::Unsupported(_),
        ),
{
    lemma_items(module.body@, 0, Context { exceptions, in_generator: false });
}

} // verus!
