//! Whether a module holds a generator function.
//!
//! Generators are lowered to C++ coroutines, so a translation unit with one
//! needs the coroutine header. The search looks at every function of the
//! tree, wherever it stands.

use vstd::prelude::*;
use crate::ast::{
    AssignTarget, BlockStmt, BlockStmtOrExpr, Callee, Decl, Expr, ExprOrSpread, ForHead, Function,
    MemberProp, Module, ModuleItem, Prop, PropName, PropOrSpread, Stmt, Tpl, VarDecl, VarDeclOrExpr,
    VarDeclarator,
};

verus! {

pub open spec fn function_has_generator(function: Function) -> bool
    decreases function,
{
    function.is_generator || optional_block_has_generator(function.body)
}

pub open spec fn stmts_have_generator(stmts: Seq<Stmt>) -> bool
    decreases stmts,
{
    exists|i: int| 0 <= i < stmts.len() && stmt_has_generator(#[trigger] stmts[i])
}

pub open spec fn block_has_generator(block: BlockStmt) -> bool
    decreases block,
{
    stmts_have_generator(block.stmts@)
}

pub open spec fn optional_block_has_generator(block: Option<BlockStmt>) -> bool
    decreases block,
{
    match block {
        None => false,
        Some(block) => block_has_generator(block),
    }
}

pub open spec fn optional_expr_has_generator(expr: Option<Box<Expr>>) -> bool
    decreases expr,
{
    match expr {
        None => false,
        Some(expr) => expr_has_generator(*expr),
    }
}

pub open spec fn declarator_has_generator(decl: VarDeclarator) -> bool
    decreases decl,
{
    optional_expr_has_generator(decl.init)
}

pub open spec fn var_decl_has_generator(decl: VarDecl) -> bool
    decreases decl,
{
    exists|i: int|
        0 <= i < decl.decls@.len() && declarator_has_generator(#[trigger] decl.decls@[i])
}

pub open spec fn stmt_has_generator(stmt: Stmt) -> bool
    decreases stmt,
{
    match stmt {
        Stmt::Block(block) => block_has_generator(block),
        Stmt::Return(ret) => optional_expr_has_generator(ret.arg),
        Stmt::Break(_) => false,
        Stmt::If(stmt) => expr_has_generator(*stmt.test) || stmt_has_generator(*stmt.cons) || (
        match stmt.alt {
            None => false,
            Some(alt) => stmt_has_generator(*alt),
        }),
        Stmt::Throw(stmt) => expr_has_generator(*stmt.arg),
        Stmt::Try(stmt) => block_has_generator(stmt.block) || (match stmt.handler {
            None => false,
            Some(handler) => block_has_generator(handler.body),
        }) || optional_block_has_generator(stmt.finalizer),
        Stmt::While(stmt) => expr_has_generator(*stmt.test) || stmt_has_generator(*stmt.body),
        Stmt::For(stmt) => (match stmt.init {
            None => false,
            Some(VarDeclOrExpr::VarDecl(decl)) => var_decl_has_generator(decl),
            Some(VarDeclOrExpr::Expr(expr)) => expr_has_generator(*expr),
        }) || optional_expr_has_generator(stmt.test) || optional_expr_has_generator(stmt.update)
            || stmt_has_generator(*stmt.body),
        Stmt::ForOf(stmt) => (match stmt.left {
            ForHead::VarDecl(decl) => var_decl_has_generator(decl),
            _ => false,
        }) || expr_has_generator(*stmt.right) || stmt_has_generator(*stmt.body),
        Stmt::Decl(Decl::Fn(decl)) => function_has_generator(decl.function),
        Stmt::Decl(Decl::Var(decl)) => var_decl_has_generator(decl),
        Stmt::Decl(Decl::Other(_)) => false,
        Stmt::Expr(stmt) => expr_has_generator(*stmt.expr),
        Stmt::Other(_) => false,
    }
}

pub open spec fn item_has_generator(item: ExprOrSpread) -> bool
    decreases item,
{
    expr_has_generator(*item.expr)
}

pub open spec fn elem_has_generator(elem: Option<ExprOrSpread>) -> bool
    decreases elem,
{
    match elem {
        None => false,
        Some(item) => item_has_generator(item),
    }
}

pub open spec fn items_have_generator(items: Seq<ExprOrSpread>) -> bool
    decreases items,
{
    exists|i: int| 0 <= i < items.len() && item_has_generator(#[trigger] items[i])
}

pub open spec fn elems_have_generator(elems: Seq<Option<ExprOrSpread>>) -> bool
    decreases elems,
{
    exists|i: int| 0 <= i < elems.len() && elem_has_generator(#[trigger] elems[i])
}

pub open spec fn exprs_have_generator(exprs: Seq<Expr>) -> bool
    decreases exprs,
{
    exists|i: int| 0 <= i < exprs.len() && expr_has_generator(#[trigger] exprs[i])
}

pub open spec fn tpl_has_generator(tpl: Tpl) -> bool
    decreases tpl,
{
    exprs_have_generator(tpl.exprs@)
}

pub open spec fn prop_name_has_generator(name: PropName) -> bool
    decreases name,
{
    match name {
        PropName::Computed(expr) => expr_has_generator(*expr),
        _ => false,
    }
}

pub open spec fn prop_has_generator(prop: PropOrSpread) -> bool
    decreases prop,
{
    match prop {
        PropOrSpread::Prop(Prop::KeyValue(prop)) => prop_name_has_generator(prop.key)
            || expr_has_generator(*prop.value),
        PropOrSpread::Prop(Prop::Getter(prop)) => prop_name_has_generator(prop.key)
            || optional_block_has_generator(prop.body),
        PropOrSpread::Prop(Prop::Setter(prop)) => prop_name_has_generator(prop.key)
            || optional_block_has_generator(prop.body),
        PropOrSpread::Prop(Prop::Method(prop)) => prop_name_has_generator(prop.key)
            || function_has_generator(prop.function),
        _ => false,
    }
}

pub open spec fn props_have_generator(props: Seq<PropOrSpread>) -> bool
    decreases props,
{
    exists|i: int| 0 <= i < props.len() && prop_has_generator(#[trigger] props[i])
}

pub open spec fn expr_has_generator(expr: Expr) -> bool
    decreases expr,
{
    match expr {
        Expr::This => false,
        Expr::Array(array) => elems_have_generator(array.elems@),
        Expr::Object(object) => props_have_generator(object.props@),
        Expr::Fn(expr) => function_has_generator(expr.function),
        Expr::Update(expr) => expr_has_generator(*expr.arg),
        Expr::Bin(expr) => expr_has_generator(*expr.left) || expr_has_generator(*expr.right),
        Expr::Assign(expr) => (match expr.left {
            AssignTarget::Expr(target) => expr_has_generator(*target),
            _ => false,
        }) || expr_has_generator(*expr.right),
        Expr::Member(expr) => expr_has_generator(*expr.obj) || (match expr.prop {
            MemberProp::Computed(key) => expr_has_generator(*key),
            _ => false,
        }),
        Expr::Cond(expr) => expr_has_generator(*expr.test) || expr_has_generator(*expr.cons)
            || expr_has_generator(*expr.alt),
        Expr::Call(expr) => (match expr.callee {
            Callee::Expr(callee) => expr_has_generator(*callee),
            Callee::Other(_) => false,
        }) || items_have_generator(expr.args@),
        Expr::Ident(_) => false,
        Expr::Lit(_) => false,
        Expr::Tpl(tpl) => tpl_has_generator(tpl),
        Expr::TaggedTpl(expr) => expr_has_generator(*expr.tag) || tpl_has_generator(expr.tpl),
        Expr::Arrow(arrow) => match arrow.body {
            BlockStmtOrExpr::BlockStmt(block) => block_has_generator(block),
            BlockStmtOrExpr::Expr(expr) => expr_has_generator(*expr),
        },
        Expr::Yield(expr) => optional_expr_has_generator(expr.arg),
        Expr::Paren(expr) => expr_has_generator(*expr.expr),
        Expr::Other(_) => false,
    }
}

pub open spec fn module_item_has_generator(item: ModuleItem) -> bool {
    match item {
        ModuleItem::Stmt(stmt) => stmt_has_generator(stmt),
        ModuleItem::ModuleDecl(_) => false,
    }
}

/// Whether a function of the module is a generator.
pub open spec fn module_has_generator(module: Module) -> bool {
    exists|i: int|
        0 <= i < module.body@.len() && module_item_has_generator(#[trigger] module.body@[i])
}

// ----- executable -----

fn function_holds_generator(function: &Function) -> (found: bool)
    ensures
        found == function_has_generator(*function),
    decreases function,
{
    function.is_generator || optional_block_holds_generator(&function.body)
}

fn stmts_hold_generator(list: &Vec<Stmt>) -> (found: bool)
    ensures
        found == stmts_have_generator(list@),
    decreases list,
{
    let mut i: usize = 0;
    while i < list.len()
        invariant
            i <= list.len(),
            forall|k: int| 0 <= k < i ==> !(stmt_has_generator(#[trigger] list@[k])),
        decreases list.len() - i,
    {
        if stmt_holds_generator(&list[i]) {
            return true;
        }
        i = i + 1;
    }
    false
}

fn block_holds_generator(block: &BlockStmt) -> (found: bool)
    ensures
        found == block_has_generator(*block),
    decreases block,
{
    stmts_hold_generator(&block.stmts)
}

fn optional_block_holds_generator(block: &Option<BlockStmt>) -> (found: bool)
    ensures
        found == optional_block_has_generator(*block),
    decreases block,
{
    match block {
        None => false,
        Some(block) => block_holds_generator(block),
    }
}

fn optional_expr_holds_generator(expr: &Option<Box<Expr>>) -> (found: bool)
    ensures
        found == optional_expr_has_generator(*expr),
    decreases expr,
{
    match expr {
        None => false,
        Some(expr) => expr_holds_generator(expr),
    }
}

fn var_decl_holds_generator(decl: &VarDecl) -> (found: bool)
    ensures
        found == var_decl_has_generator(*decl),
    decreases decl,
{
    let mut i: usize = 0;
    while i < decl.decls.len()
        invariant
            i <= decl.decls.len(),
            forall|k: int| 0 <= k < i ==> !declarator_has_generator(#[trigger] decl.decls@[k]),
        decreases decl.decls.len() - i,
    {
        if optional_expr_holds_generator(&decl.decls[i].init) {
            return true;
        }
        i = i + 1;
    }
    false
}

// The many short-circuit branches are heavy on a shared prover.
#[verifier::spinoff_prover]
fn stmt_holds_generator(stmt: &Stmt) -> (found: bool)
    ensures
        found == stmt_has_generator(*stmt),
    decreases stmt,
{
    match stmt {
        Stmt::Block(block) => block_holds_generator(block),
        Stmt::Return(ret) => optional_expr_holds_generator(&ret.arg),
        Stmt::Break(_) => false,
        Stmt::If(stmt) => expr_holds_generator(&stmt.test) || stmt_holds_generator(&stmt.cons)
            || (match &stmt.alt {
            None => false,
            Some(alt) => stmt_holds_generator(alt),
        }),
        Stmt::Throw(stmt) => expr_holds_generator(&stmt.arg),
        Stmt::Try(stmt) => block_holds_generator(&stmt.block) || (match &stmt.handler {
            None => false,
            Some(handler) => block_holds_generator(&handler.body),
        }) || optional_block_holds_generator(&stmt.finalizer),
        Stmt::While(stmt) => expr_holds_generator(&stmt.test) || stmt_holds_generator(&stmt.body),
        Stmt::For(stmt) => (match &stmt.init {
            None => false,
            Some(VarDeclOrExpr::VarDecl(decl)) => var_decl_holds_generator(decl),
            Some(VarDeclOrExpr::Expr(expr)) => expr_holds_generator(expr),
        }) || optional_expr_holds_generator(&stmt.test) || optional_expr_holds_generator(
            &stmt.update,
        ) || stmt_holds_generator(&stmt.body),
        Stmt::ForOf(stmt) => (match &stmt.left {
            ForHead::VarDecl(decl) => var_decl_holds_generator(decl),
            _ => false,
        }) || expr_holds_generator(&stmt.right) || stmt_holds_generator(&stmt.body),
        Stmt::Decl(Decl::Fn(decl)) => function_holds_generator(&decl.function),
        Stmt::Decl(Decl::Var(decl)) => var_decl_holds_generator(decl),
        Stmt::Decl(Decl::Other(_)) => false,
        Stmt::Expr(stmt) => expr_holds_generator(&stmt.expr),
        Stmt::Other(_) => false,
    }
}

fn items_hold_generator(list: &Vec<ExprOrSpread>) -> (found: bool)
    ensures
        found == items_have_generator(list@),
    decreases list,
{
    let mut i: usize = 0;
    while i < list.len()
        invariant
            i <= list.len(),
            forall|k: int| 0 <= k < i ==> !(item_has_generator(#[trigger] list@[k])),
        decreases list.len() - i,
    {
        if expr_holds_generator(&list[i].expr) {
            return true;
        }
        i = i + 1;
    }
    false
}

fn elems_hold_generator(list: &Vec<Option<ExprOrSpread>>) -> (found: bool)
    ensures
        found == elems_have_generator(list@),
    decreases list,
{
    let mut i: usize = 0;
    while i < list.len()
        invariant
            i <= list.len(),
            forall|k: int| 0 <= k < i ==> !elem_has_generator(#[trigger] list@[k]),
        decreases list.len() - i,
    {
        match &list[i] {
            None => {},
            Some(item) => {
                if expr_holds_generator(&item.expr) {
                    return true;
                }
            },
        }
        i = i + 1;
    }
    false
}

fn exprs_hold_generator(list: &Vec<Expr>) -> (found: bool)
    ensures
        found == exprs_have_generator(list@),
    decreases list,
{
    let mut i: usize = 0;
    while i < list.len()
        invariant
            i <= list.len(),
            forall|k: int| 0 <= k < i ==> !(expr_has_generator(#[trigger] list@[k])),
        decreases list.len() - i,
    {
        if expr_holds_generator(&list[i]) {
            return true;
        }
        i = i + 1;
    }
    false
}

fn tpl_holds_generator(tpl: &Tpl) -> (found: bool)
    ensures
        found == tpl_has_generator(*tpl),
    decreases tpl,
{
    exprs_hold_generator(&tpl.exprs)
}

fn prop_name_holds_generator(name: &PropName) -> (found: bool)
    ensures
        found == prop_name_has_generator(*name),
    decreases name,
{
    match name {
        PropName::Computed(expr) => expr_holds_generator(expr),
        _ => false,
    }
}

fn prop_holds_generator(prop: &PropOrSpread) -> (found: bool)
    ensures
        found == prop_has_generator(*prop),
    decreases prop,
{
    match prop {
        PropOrSpread::Prop(Prop::KeyValue(prop)) => prop_name_holds_generator(&prop.key)
            || expr_holds_generator(&prop.value),
        PropOrSpread::Prop(Prop::Getter(prop)) => prop_name_holds_generator(&prop.key)
            || optional_block_holds_generator(&prop.body),
        PropOrSpread::Prop(Prop::Setter(prop)) => prop_name_holds_generator(&prop.key)
            || optional_block_holds_generator(&prop.body),
        PropOrSpread::Prop(Prop::Method(prop)) => prop_name_holds_generator(&prop.key)
            || function_holds_generator(&prop.function),
        _ => false,
    }
}

fn props_hold_generator(list: &Vec<PropOrSpread>) -> (found: bool)
    ensures
        found == props_have_generator(list@),
    decreases list,
{
    let mut i: usize = 0;
    while i < list.len()
        invariant
            i <= list.len(),
            forall|k: int| 0 <= k < i ==> !(prop_has_generator(#[trigger] list@[k])),
        decreases list.len() - i,
    {
        if prop_holds_generator(&list[i]) {
            return true;
        }
        i = i + 1;
    }
    false
}

// The many short-circuit branches are heavy on a shared prover.
#[verifier::spinoff_prover]
fn expr_holds_generator(expr: &Expr) -> (found: bool)
    ensures
        found == expr_has_generator(*expr),
    decreases expr,
{
    match expr {
        Expr::This => false,
        Expr::Array(array) => elems_hold_generator(&array.elems),
        Expr::Object(object) => props_hold_generator(&object.props),
        Expr::Fn(expr) => function_holds_generator(&expr.function),
        Expr::Update(expr) => expr_holds_generator(&expr.arg),
        Expr::Bin(expr) => expr_holds_generator(&expr.left) || expr_holds_generator(&expr.right),
        Expr::Assign(expr) => (match &expr.left {
            AssignTarget::Expr(target) => expr_holds_generator(target),
            _ => false,
        }) || expr_holds_generator(&expr.right),
        Expr::Member(expr) => expr_holds_generator(&expr.obj) || (match &expr.prop {
            MemberProp::Computed(key) => expr_holds_generator(key),
            _ => false,
        }),
        Expr::Cond(expr) => expr_holds_generator(&expr.test) || expr_holds_generator(&expr.cons)
            || expr_holds_generator(&expr.alt),
        Expr::Call(expr) => (match &expr.callee {
            Callee::Expr(callee) => expr_holds_generator(callee),
            Callee::Other(_) => false,
        }) || items_hold_generator(&expr.args),
        Expr::Ident(_) => false,
        Expr::Lit(_) => false,
        Expr::Tpl(tpl) => tpl_holds_generator(tpl),
        Expr::TaggedTpl(expr) => expr_holds_generator(&expr.tag) || tpl_holds_generator(&expr.tpl),
        Expr::Arrow(arrow) => match &arrow.body {
            BlockStmtOrExpr::BlockStmt(block) => block_holds_generator(block),
            BlockStmtOrExpr::Expr(expr) => expr_holds_generator(expr),
        },
        Expr::Yield(expr) => optional_expr_holds_generator(&expr.arg),
        Expr::Paren(expr) => expr_holds_generator(&expr.expr),
        Expr::Other(_) => false,
    }
}

/// Looks for a generator function in the module.
pub fn module_holds_generator(module: &Module) -> (found: bool)
    ensures
        found == module_has_generator(*module),
{
    let mut i: usize = 0;
    while i < module.body.len()
        invariant
            i <= module.body.len(),
            forall|k: int| 0 <= k < i ==> !module_item_has_generator(#[trigger] module.body@[k]),
        decreases module.body.len() - i,
    {
        match &module.body[i] {
            ModuleItem::Stmt(stmt) => {
                if stmt_holds_generator(stmt) {
                    return true;
                }
            },
            ModuleItem::ModuleDecl(_) => {},
        }
        i = i + 1;
    }
    false
}

} // verus!
