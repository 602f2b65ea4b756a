//! The translator: a walk over the syntax tree that writes C++ for each node.

use vstd::prelude::*;
use crate::ast::{
    ArrayLit, ArrowExpr, AssignExpr, AssignOp, AssignTarget, BinExpr, BinaryOp, BlockStmt,
    BlockStmtOrExpr, Bool, BreakStmt, CallExpr, Callee, CondExpr, Decl, Expr, ExprOrSpread, FnDecl,
    FnExpr, ForHead, ForOfStmt, ForStmt, Function, GetterProp, Ident, IfStmt, KeyValueProp, Lit,
    MemberExpr, MemberProp, MethodProp, Module, ModuleItem, Number, ObjectLit, ParenExpr, Pat, Prop,
    PropName, PropOrSpread, ReturnStmt, SetterProp, Stmt, Str, TaggedTpl, ThrowStmt, Tpl, TryStmt,
    UpdateExpr, UpdateOp, VarDecl, VarDeclKind, VarDeclOrExpr, VarDeclarator, WhileStmt, YieldExpr,
};
use crate::assembly::{module_text, write_translation_unit};
use crate::error::{Construct, Defect, Gated, TranspileError};
use crate::generators::module_holds_generator;
use crate::globals::{Global, GlobalView};
use crate::lowering::{
    arg_texts, array_text, arrow_text, assign_text, bin_text, binary_operator, block_text,
    bool_text, break_text, call_text, cond_text, decl_text, destructured_params, elem_texts,
    expr_text, fn_decl_text, for_of_text, for_text, function_text, generator_function_text,
    getter_text, if_text, item_texts, key_value_text, literal_text, member_text, method_text,
    number_text, object_text, param_bindings, paren_text, plain_function_text, prop_name_text,
    prop_text, prop_texts, spreadable_text, return_text, setter_text, shorthand_text, stmt_text,
    stmt_texts, string_content, string_text, tagged_tpl_text, throw_text, tpl_text, try_text,
    update_text, var_decl_text, var_declarator_text, while_text, yield_text, Context, Lowered,
    LoweredList,
};
use crate::text::join;
use crate::writer::{
    write_accessors, write_array, write_arrow, write_assignment, write_binary, write_block,
    write_bool_value, write_call, write_conditional, write_declaration, write_entry,
    write_expression_body, write_fn_decl, write_for, write_for_of, write_function, write_generator,
    write_if, write_initialized, write_member, write_number_value, write_object,
    write_param_binding, write_parenthesized, write_quoted, write_return, write_statement,
    write_string_value, write_throw, write_try, write_undefined_value, write_update,
    write_value_copy, write_while, write_yield,
};

verus! {

/// The state of one translator.
pub struct Transpiler {
    /// The host objects that the generated `main` defines, in the order in
    /// which they were registered.
    pub globals: Vec<Global>,
    /// Whether `throw` and `try` are lowered to C++ exceptions.
    pub feature_exceptions: bool,
    /// Set while the left side of an assignment is lowered. Between two
    /// translations it is `false`.
    pub is_lhs: bool,
    /// Set while the body of a generator function is lowered, so that a
    /// `return` in it leaves the coroutine. Between two translations it is
    /// `false`.
    pub is_generator: bool,
}

/// What a lowering returned, with its text as a sequence of characters.
pub open spec fn shown(result: Result<String, TranspileError>) -> Lowered {
    match result {
        Ok(text) => Ok(text@),
        Err(e) => Err(e),
    }
}

/// The texts lowered so far, followed by what the rest of a list gives.
pub open spec fn continued(done: Seq<Seq<char>>, rest: LoweredList) -> LoweredList {
    match rest {
        Ok(rest) => Ok(done + rest),
        Err(e) => Err(e),
    }
}

/// One more item of a list has been lowered.
proof fn lemma_continue(
    all: LoweredList,
    here: LoweredList,
    next: LoweredList,
    done: Seq<Seq<char>>,
    piece: Seq<char>,
)
    requires
        all == continued(done, here),
        here == continued(seq![piece], next),
    ensures
        all == continued(done.push(piece), next),
{
    if let Ok(rest) = next {
        assert(done + (seq![piece] + rest) =~= done.push(piece) + rest);
    }
}

/// The whole list has been lowered.
proof fn lemma_finished(all: LoweredList, done: Seq<Seq<char>>)
    requires
        all == continued(done, Ok(Seq::empty())),
    ensures
        all == Ok::<Seq<Seq<char>>, TranspileError>(done),
{
    assert(done + Seq::<Seq<char>>::empty() =~= done);
}

impl Transpiler {
    /// What the lowering of a node depends on in this state.
    pub open spec fn context(&self) -> Context {
        Context { exceptions: self.feature_exceptions, in_generator: self.is_generator }
    }

    /// A translator without globals, with exceptions enabled.
    pub fn new() -> (transpiler: Transpiler)
        ensures
            transpiler.globals@.len() == 0,
            transpiler.feature_exceptions,
            !transpiler.is_lhs,
            !transpiler.is_generator,
    {
        Transpiler {
            globals: Vec::new(),
            feature_exceptions: true,
            is_lhs: false,
            is_generator: false,
        }
    }

    /// The globals as the contracts speak of them.
    pub open spec fn globals_view(&self) -> Seq<GlobalView> {
        self.globals.deep_view()
    }

    /// Translates a module into one C++ translation unit.
    ///
    /// The result is the text that [`module_text`] gives for the globals and
    /// the exceptions switch of this translator, or the first failure that
    /// it names; nothing is returned beside a failure. The globals and the
    /// switch are left as they were, and both lowering flags are clear
    /// afterwards, whatever they were before and however the translation
    /// ended.
    pub fn transpile_module(&mut self, module: &Module) -> (result: Result<
        String,
        TranspileError,
    >)
        ensures
            final(self).globals == old(self).globals,
            final(self).feature_exceptions == old(self).feature_exceptions,
            !final(self).is_lhs,
            !final(self).is_generator,
            shown(result) == module_text(
                old(self).globals_view(),
                old(self).feature_exceptions,
                *module,
            ),
    {
        self.is_lhs = false;
        self.is_generator = false;
        let ghost start = *self;
        let mut statements: Vec<String> = Vec::new();
        let mut i: usize = 0;
        while i < module.body.len()
            invariant
                i <= module.body.len(),
                *self == start,
                start.globals == old(self).globals,
                start.feature_exceptions == old(self).feature_exceptions,
                !start.is_lhs,
                !start.is_generator,
                item_texts(module.body@, 0, self.context()) == continued(
                    statements.deep_view(),
                    item_texts(module.body@, i as nat, self.context()),
                ),
            decreases module.body.len() - i,
        {
            let ghost done = statements.deep_view();
            let statement = match &module.body[i] {
                ModuleItem::ModuleDecl(kind) => {
                    return Err(
                        TranspileError::Unsupported(Construct::ModuleDeclaration(*kind)),
                    );
                },
                ModuleItem::Stmt(stmt) => self.transpile_stmt(stmt)?,
            };
            statements.push(statement);
            proof {
                assert(statements.deep_view() =~= done.push(statement@));
                lemma_continue(
                    item_texts(module.body@, 0, self.context()),
                    item_texts(module.body@, i as nat, self.context()),
                    item_texts(module.body@, (i + 1) as nat, self.context()),
                    done,
                    statement@,
                );
            }
            i = i + 1;
        }
        proof {
            lemma_finished(item_texts(module.body@, 0, self.context()), statements.deep_view());
        }
        let coroutines = module_holds_generator(module);
        Ok(write_translation_unit(&self.globals, coroutines, &statements))
    }

    fn transpile_number(&self, number: &Number) -> (result: Result<String, TranspileError>)
        ensures
            shown(result) == number_text(*number),
    {
        Ok(write_number_value(number.value.as_str()))
    }

    fn transpile_bool(&self, value: &Bool) -> (result: Result<String, TranspileError>)
        ensures
            shown(result) == bool_text(*value),
    {
        Ok(write_bool_value(value.value))
    }

    /// The characters between the quotes of a string literal.
    fn unquoted(string: &Str) -> (result: Result<String, TranspileError>)
        ensures
            shown(result) == string_content(*string),
    {
        match &string.raw {
            Some(raw) => {
                let len = raw.as_str().unicode_len();
                if len >= 2 {
                    Ok(String::from_str(raw.as_str().substring_char(1, len - 1)))
                } else {
                    Err(TranspileError::Malformed(Defect::StringQuotes))
                }
            },
            None => Ok(string.value.clone()),
        }
    }

    fn transpile_string(&self, string: &Str) -> (result: Result<String, TranspileError>)
        ensures
            shown(result) == string_text(*string),
    {
        let content = Self::unquoted(string)?;
        Ok(write_string_value(content.as_str()))
    }

    fn transpile_literal(&self, lit: &Lit) -> (result: Result<String, TranspileError>)
        ensures
            shown(result) == literal_text(*lit),
    {
        match lit {
            Lit::Num(number) => self.transpile_number(number),
            Lit::Str(string) => self.transpile_string(string),
            Lit::Bool(value) => self.transpile_bool(value),
            Lit::Other(kind) => Err(TranspileError::Unsupported(Construct::Literal(*kind))),
        }
    }

    fn transpile_tpl_expr(&self, tpl: &Tpl) -> (result: Result<String, TranspileError>)
        ensures
            shown(result) == tpl_text(*tpl),
    {
        if tpl.exprs.len() > 0 || tpl.quasis.len() > 1 {
            return Err(TranspileError::Unsupported(Construct::TemplateInterpolation));
        }
        if tpl.quasis.len() == 0 {
            return Err(TranspileError::Malformed(Defect::TemplateText));
        }
        Ok(write_string_value(tpl.quasis[0].raw.as_str()))
    }

    fn transpile_this_expr(&self) -> (result: Result<String, TranspileError>)
        ensures
            shown(result) == Ok::<Seq<char>, TranspileError>("thisArg"@),
    {
        Ok(String::from_str("thisArg"))
    }

    fn transpile_break_stmt(&self, stmt: &BreakStmt) -> (result: Result<String, TranspileError>)
        ensures
            shown(result) == break_text(*stmt),
    {
        match &stmt.label {
            Some(_) => Err(TranspileError::Unsupported(Construct::LabeledBreak)),
            None => Ok(String::from_str("break")),
        }
    }

    fn transpile_prop_shorthand(&self, ident: &Ident) -> (result: Result<String, TranspileError>)
        ensures
            shown(result) == shorthand_text(*ident),
    {
        let key = write_string_value(ident.sym.as_str());
        Ok(write_entry(key.as_str(), ident.sym.as_str()))
    }

    /// The C++ operator for a binary operator.
    fn binary_operator(op: BinaryOp) -> (result: Result<&'static str, TranspileError>)
        ensures
            match result {
                Ok(text) => binary_operator(op) == Ok::<Seq<char>, TranspileError>(text@),
                Err(e) => binary_operator(op) == Err::<Seq<char>, TranspileError>(e),
            },
    {
        match op {
            BinaryOp::Add => Ok("+"),
            BinaryOp::Mul => Ok("*"),
            BinaryOp::Gt => Ok(">"),
            BinaryOp::GtEq => Ok(">="),
            BinaryOp::EqEq => Ok("=="),
            BinaryOp::EqEqEq => Ok("=="),
            BinaryOp::Lt => Ok("<"),
            BinaryOp::LtEq => Ok("<="),
            BinaryOp::NotEq => Ok("!="),
            BinaryOp::NotEqEq => Ok("!="),
            BinaryOp::LogicalAnd => Ok("&&"),
            BinaryOp::LogicalOr => Ok("||"),
            BinaryOp::Mod => Ok("%"),
            _ => Err(TranspileError::Unsupported(Construct::BinaryOperator(op))),
        }
    }

    fn transpile_param_destructure(&self, params: &Vec<Pat>) -> (result: Result<
        String,
        TranspileError,
    >)
        ensures
            shown(result) == destructured_params(params@),
    {
        let mut bindings: Vec<String> = Vec::new();
        let mut idx: usize = 0;
        while idx < params.len()
            invariant
                idx <= params.len(),
                param_bindings(params@, 0) == continued(
                    bindings.deep_view(),
                    param_bindings(params@, idx as nat),
                ),
            decreases params.len() - idx,
        {
            match &params[idx] {
                Pat::Other(kind) => {
                    return Err(TranspileError::Unsupported(Construct::ParameterPattern(*kind)));
                },
                Pat::Ident(ident) => {
                    let ghost done = bindings.deep_view();
                    let binding = write_param_binding(ident.sym.as_str(), idx);
                    bindings.push(binding);
                    proof {
                        assert(bindings.deep_view() =~= done.push(binding@));
                        lemma_continue(
                            param_bindings(params@, 0),
                            param_bindings(params@, idx as nat),
                            param_bindings(params@, (idx + 1) as nat),
                            done,
                            binding@,
                        );
                    }
                },
            }
            idx = idx + 1;
        }
        proof {
            lemma_finished(param_bindings(params@, 0), bindings.deep_view());
        }
        Ok(join(&bindings, ";"))
    }

    fn transpile_stmt(&mut self, stmt: &Stmt) -> (result: Result<String, TranspileError>)
        ensures
            *final(self) == *old(self),
            shown(result) == stmt_text(*stmt, old(self).context()),
        decreases stmt, 0nat,
    {
        let transpiled_stmt = match stmt {
            Stmt::Decl(decl) => self.transpile_decl(decl)?,
            Stmt::Expr(expr_stmt) => self.transpile_expr(&expr_stmt.expr)?,
            Stmt::Block(block) => self.transpile_block_stmt(block)?,
            Stmt::Return(ret) => self.transpile_return_stmt(ret)?,
            Stmt::If(if_stmt) => self.transpile_if_stmt(if_stmt)?,
            Stmt::For(for_stmt) => self.transpile_for_stmt(for_stmt)?,
            Stmt::ForOf(for_of) => self.transpile_for_of_stmt(for_of)?,
            Stmt::While(while_stmt) => self.transpile_while_stmt(while_stmt)?,
            Stmt::Break(break_stmt) => self.transpile_break_stmt(break_stmt)?,
            Stmt::Throw(throw) => self.transpile_throw_stmt(throw)?,
            Stmt::Try(try_stmt) => self.transpile_try_stmt(try_stmt)?,
            Stmt::Other(kind) => {
                return Err(TranspileError::Unsupported(Construct::Statement(*kind)));
            },
        };
        Ok(write_statement(transpiled_stmt))
    }

    fn transpile_block_stmt(&mut self, block: &BlockStmt) -> (result: Result<
        String,
        TranspileError,
    >)
        ensures
            *final(self) == *old(self),
            shown(result) == block_text(*block, old(self).context()),
        decreases block, 0nat,
    {
        let mut stmts: Vec<String> = Vec::new();
        let mut i: usize = 0;
        while i < block.stmts.len()
            invariant
                i <= block.stmts.len(),
                *self == *old(self),
                stmt_texts(block.stmts@, 0, self.context()) == continued(
                    stmts.deep_view(),
                    stmt_texts(block.stmts@, i as nat, self.context()),
                ),
            decreases block.stmts.len() - i,
        {
            let ghost done = stmts.deep_view();
            let stmt = self.transpile_stmt(&block.stmts[i])?;
            stmts.push(stmt);
            proof {
                assert(stmts.deep_view() =~= done.push(stmt@));
                lemma_continue(
                    stmt_texts(block.stmts@, 0, self.context()),
                    stmt_texts(block.stmts@, i as nat, self.context()),
                    stmt_texts(block.stmts@, (i + 1) as nat, self.context()),
                    done,
                    stmt@,
                );
            }
            i = i + 1;
        }
        proof {
            lemma_finished(stmt_texts(block.stmts@, 0, self.context()), stmts.deep_view());
        }
        Ok(write_block(&stmts))
    }

    /// Lowers an expression that may be absent.
    fn transpile_optional_expr(&mut self, expr: &Option<Box<Expr>>) -> (result: Result<
        String,
        TranspileError,
    >)
        ensures
            *final(self) == *old(self),
            shown(result) == crate::lowering::optional_expr_text(*expr, old(self).context()),
        decreases expr, 0nat,
    {
        match expr {
            None => Ok(String::new()),
            Some(expr) => self.transpile_expr(expr),
        }
    }

    fn transpile_return_stmt(&mut self, ret: &ReturnStmt) -> (result: Result<
        String,
        TranspileError,
    >)
        ensures
            *final(self) == *old(self),
            shown(result) == return_text(*ret, old(self).context()),
        decreases ret, 0nat,
    {
        let arg = self.transpile_optional_expr(&ret.arg)?;
        Ok(write_return(self.is_generator, arg.as_str()))
    }

    fn transpile_if_stmt(&mut self, stmt: &IfStmt) -> (result: Result<String, TranspileError>)
        ensures
            *final(self) == *old(self),
            shown(result) == if_text(*stmt, old(self).context()),
        decreases stmt, 0nat,
    {
        let test = self.transpile_expr(&stmt.test)?;
        let cons = self.transpile_stmt(&stmt.cons)?;
        let alt = match &stmt.alt {
            None => String::new(),
            Some(alt) => self.transpile_stmt(alt)?,
        };
        Ok(write_if(test.as_str(), cons.as_str(), alt.as_str()))
    }

    fn transpile_while_stmt(&mut self, stmt: &WhileStmt) -> (result: Result<
        String,
        TranspileError,
    >)
        ensures
            *final(self) == *old(self),
            shown(result) == while_text(*stmt, old(self).context()),
        decreases stmt, 0nat,
    {
        let test = self.transpile_expr(&stmt.test)?;
        let body = self.transpile_stmt(&stmt.body)?;
        Ok(write_while(test.as_str(), body.as_str()))
    }

    fn transpile_for_stmt(&mut self, stmt: &ForStmt) -> (result: Result<String, TranspileError>)
        ensures
            *final(self) == *old(self),
            shown(result) == for_text(*stmt, old(self).context()),
        decreases stmt, 0nat,
    {
        let init = match &stmt.init {
            None => String::new(),
            Some(VarDeclOrExpr::Expr(expr)) => self.transpile_expr(expr)?,
            Some(VarDeclOrExpr::VarDecl(decl)) => self.transpile_var_decl(decl)?,
        };
        let test = self.transpile_optional_expr(&stmt.test)?;
        let update = self.transpile_optional_expr(&stmt.update)?;
        let body = self.transpile_stmt(&stmt.body)?;
        Ok(write_for(init.as_str(), test.as_str(), update.as_str(), body.as_str()))
    }

    fn transpile_for_of_stmt(&mut self, stmt: &ForOfStmt) -> (result: Result<
        String,
        TranspileError,
    >)
        ensures
            *final(self) == *old(self),
            shown(result) == for_of_text(*stmt, old(self).context()),
        decreases stmt, 0nat,
    {
        if stmt.is_await {
            return Err(TranspileError::Unsupported(Construct::ForAwait));
        }
        let left = match &stmt.left {
            ForHead::VarDecl(decl) => self.transpile_var_decl(decl)?,
            _ => {
                return Err(TranspileError::Unsupported(Construct::ForOfHead));
            },
        };
        let right = self.transpile_expr(&stmt.right)?;
        let body = self.transpile_stmt(&stmt.body)?;
        Ok(write_for_of(left.as_str(), right.as_str(), body.as_str()))
    }

    fn transpile_throw_stmt(&mut self, stmt: &ThrowStmt) -> (result: Result<
        String,
        TranspileError,
    >)
        ensures
            *final(self) == *old(self),
            shown(result) == throw_text(*stmt, old(self).context()),
        decreases stmt, 0nat,
    {
        if !self.feature_exceptions {
            return Err(TranspileError::FeatureGate(Gated::Throw));
        }
        let arg = self.transpile_expr(&stmt.arg)?;
        Ok(write_throw(arg.as_str()))
    }

    fn transpile_try_stmt(&mut self, stmt: &TryStmt) -> (result: Result<String, TranspileError>)
        ensures
            *final(self) == *old(self),
            shown(result) == try_text(*stmt, old(self).context()),
        decreases stmt, 0nat,
    {
        if !self.feature_exceptions {
            return Err(TranspileError::FeatureGate(Gated::Try));
        }
        let handler = match &stmt.handler {
            None => {
                return Err(TranspileError::Unsupported(Construct::TryWithoutCatch));
            },
            Some(handler) => handler,
        };
        if stmt.finalizer.is_some() {
            return Err(TranspileError::Unsupported(Construct::Finally));
        }
        let binding = match &handler.param {
            None => {
                return Err(TranspileError::Unsupported(Construct::CatchWithoutBinding));
            },
            Some(Pat::Other(kind)) => {
                return Err(TranspileError::Unsupported(Construct::CatchPattern(*kind)));
            },
            Some(Pat::Ident(ident)) => ident,
        };
        let block = self.transpile_block_stmt(&stmt.block)?;
        let body = self.transpile_block_stmt(&handler.body)?;
        Ok(write_try(block.as_str(), binding.sym.as_str(), body.as_str()))
    }

    fn transpile_decl(&mut self, decl: &Decl) -> (result: Result<String, TranspileError>)
        ensures
            *final(self) == *old(self),
            shown(result) == decl_text(*decl, old(self).context()),
        decreases decl, 0nat,
    {
        match decl {
            Decl::Var(var_decl) => self.transpile_var_decl(var_decl),
            Decl::Fn(fn_decl) => self.transpile_fn_decl(fn_decl),
            Decl::Other(kind) => Err(TranspileError::Unsupported(Construct::Declaration(*kind))),
        }
    }

    fn transpile_fn_decl(&mut self, decl: &FnDecl) -> (result: Result<String, TranspileError>)
        ensures
            *final(self) == *old(self),
            shown(result) == fn_decl_text(*decl, old(self).context()),
        decreases decl, 0nat,
    {
        let func = self.transpile_function(&decl.function)?;
        Ok(write_fn_decl(decl.ident.sym.as_str(), func.as_str()))
    }

    fn transpile_var_decl(&mut self, decl: &VarDecl) -> (result: Result<String, TranspileError>)
        ensures
            *final(self) == *old(self),
            shown(result) == var_decl_text(*decl, old(self).context()),
        decreases decl, 0nat,
    {
        match decl.kind {
            VarDeclKind::Let => {},
            kind => {
                return Err(TranspileError::Unsupported(Construct::VarKind(kind)));
            },
        }
        if decl.decls.len() > 1 {
            return Err(TranspileError::Unsupported(Construct::MultipleDeclarators));
        }
        if decl.decls.len() == 0 {
            return Err(TranspileError::Malformed(Defect::Declarator));
        }
        self.transpile_var_declarator(&decl.decls[0])
    }

    fn transpile_var_declarator(&mut self, decl: &VarDeclarator) -> (result: Result<
        String,
        TranspileError,
    >)
        ensures
            *final(self) == *old(self),
            shown(result) == var_declarator_text(*decl, old(self).context()),
        decreases decl, 0nat,
    {
        let ident = match &decl.name {
            Pat::Other(kind) => {
                return Err(TranspileError::Unsupported(Construct::BindingPattern(*kind)));
            },
            Pat::Ident(ident) => ident,
        };
        match &decl.init {
            None => Ok(write_declaration(ident.sym.as_str())),
            Some(init) => {
                let init = self.transpile_expr(init)?;
                Ok(write_initialized(ident.sym.as_str(), init.as_str()))
            },
        }
    }

    fn transpile_expr(&mut self, expr: &Expr) -> (result: Result<String, TranspileError>)
        ensures
            *final(self) == *old(self),
            shown(result) == expr_text(*expr, old(self).context()),
        decreases expr, 0nat,
    {
        match expr {
            Expr::Ident(ident) => Ok(ident.sym.clone()),
            Expr::Lit(lit) => self.transpile_literal(lit),
            Expr::Array(array) => self.transpile_array_literal(array),
            Expr::Call(call) => self.transpile_call_expr(call),
            Expr::Member(member) => self.transpile_member_expr(member),
            Expr::Arrow(arrow) => self.transpile_arrow_expr(arrow),
            Expr::Bin(bin) => self.transpile_bin_expr(bin),
            Expr::Tpl(tpl) => self.transpile_tpl_expr(tpl),
            Expr::TaggedTpl(tagged) => self.transpile_tagged_tpl_expr(tagged),
            Expr::Object(object) => self.transpile_object_lit(object),
            Expr::Paren(paren) => self.transpile_paren_expr(paren),
            Expr::Fn(fn_expr) => self.transpile_fn_expr(fn_expr),
            Expr::This => self.transpile_this_expr(),
            Expr::Assign(assign) => self.transpile_assign_expr(assign),
            Expr::Cond(cond) => self.transpile_cond_expr(cond),
            Expr::Update(update) => self.transpile_update_expr(update),
            Expr::Yield(yield_expr) => self.transpile_yield_expr(yield_expr),
            Expr::Other(kind) => Err(TranspileError::Unsupported(Construct::Expression(*kind))),
        }
    }

    fn transpile_yield_expr(&mut self, expr: &YieldExpr) -> (result: Result<
        String,
        TranspileError,
    >)
        ensures
            *final(self) == *old(self),
            shown(result) == yield_text(*expr, old(self).context()),
        decreases expr, 0nat,
    {
        if expr.delegate {
            return Err(TranspileError::Unsupported(Construct::DelegateYield));
        }
        let value = match &expr.arg {
            None => write_undefined_value(),
            Some(arg) => self.transpile_expr(arg)?,
        };
        Ok(write_yield(value.as_str()))
    }

    fn transpile_update_expr(&mut self, expr: &UpdateExpr) -> (result: Result<
        String,
        TranspileError,
    >)
        ensures
            *final(self) == *old(self),
            shown(result) == update_text(*expr, old(self).context()),
        decreases expr, 0nat,
    {
        let arg = self.transpile_expr(&expr.arg)?;
        let op = match expr.op {
            UpdateOp::MinusMinus => "--",
            UpdateOp::PlusPlus => "++",
        };
        Ok(write_update(op, expr.prefix, arg.as_str()))
    }

    fn transpile_cond_expr(&mut self, expr: &CondExpr) -> (result: Result<String, TranspileError>)
        ensures
            *final(self) == *old(self),
            shown(result) == cond_text(*expr, old(self).context()),
        decreases expr, 0nat,
    {
        let test = self.transpile_expr(&expr.test)?;
        let cons = self.transpile_expr(&expr.cons)?;
        let alt = self.transpile_expr(&expr.alt)?;
        Ok(write_conditional(test.as_str(), cons.as_str(), alt.as_str()))
    }

    fn transpile_assign_expr(&mut self, expr: &AssignExpr) -> (result: Result<
        String,
        TranspileError,
    >)
        ensures
            *final(self) == *old(self),
            shown(result) == assign_text(*expr, old(self).context()),
        decreases expr, 0nat,
    {
        let saved = self.is_lhs;
        self.is_lhs = true;
        let left = match &expr.left {
            AssignTarget::Expr(target) => self.transpile_expr(target),
            AssignTarget::Ident(ident) => Ok(ident.sym.clone()),
            AssignTarget::Pat(kind) => Err(
                TranspileError::Unsupported(Construct::AssignPattern(*kind)),
            ),
        };
        self.is_lhs = false;
        let result = match left {
            Err(e) => Err(e),
            Ok(left) => match self.transpile_expr(&expr.right) {
                Err(e) => Err(e),
                Ok(right) => match expr.op {
                    AssignOp::Assign => Ok(write_assignment(left, right.as_str())),
                    op => Err(TranspileError::Unsupported(Construct::AssignOperator(op))),
                },
            },
        };
        self.is_lhs = saved;
        result
    }

    fn transpile_function(&mut self, function: &Function) -> (result: Result<
        String,
        TranspileError,
    >)
        ensures
            *final(self) == *old(self),
            shown(result) == function_text(*function, old(self).context()),
        decreases function, 1nat,
    {
        if function.is_async {
            return Err(TranspileError::Unsupported(Construct::AsyncFunction));
        }
        if function.is_generator {
            return self.transpile_generator_function(function);
        }
        self.transpile_plain_function(function)
    }

    fn transpile_generator_function(&mut self, function: &Function) -> (result: Result<
        String,
        TranspileError,
    >)
        requires
            function.is_generator,
        ensures
            *final(self) == *old(self),
            shown(result) == generator_function_text(*function, old(self).context()),
        decreases function, 0nat,
    {
        let saved = self.is_generator;
        self.is_generator = true;
        let result = match self.transpile_param_destructure(&function.params) {
            Err(e) => Err(e),
            Ok(param_destructure) => match &function.body {
                None => Err(TranspileError::Malformed(Defect::FunctionBody)),
                Some(block) => match self.transpile_block_stmt(block) {
                    Err(e) => Err(e),
                    Ok(body) => Ok(write_generator(param_destructure.as_str(), body.as_str())),
                },
            },
        };
        self.is_generator = saved;
        result
    }

    fn transpile_plain_function(&mut self, function: &Function) -> (result: Result<
        String,
        TranspileError,
    >)
        ensures
            *final(self) == *old(self),
            shown(result) == plain_function_text(*function, old(self).context()),
        decreases function, 0nat,
    {
        let param_destructure = self.transpile_param_destructure(&function.params)?;
        let body = match &function.body {
            Some(block) => self.transpile_block_stmt(block)?,
            None => {
                return Err(TranspileError::Malformed(Defect::FunctionBody));
            },
        };
        Ok(write_function(param_destructure.as_str(), body.as_str()))
    }

    fn transpile_fn_expr(&mut self, fn_expr: &FnExpr) -> (result: Result<String, TranspileError>)
        ensures
            *final(self) == *old(self),
            shown(result) == function_text(fn_expr.function, old(self).context()),
        decreases fn_expr, 0nat,
    {
        self.transpile_function(&fn_expr.function)
    }

    fn transpile_paren_expr(&mut self, expr: &ParenExpr) -> (result: Result<
        String,
        TranspileError,
    >)
        ensures
            *final(self) == *old(self),
            shown(result) == paren_text(*expr, old(self).context()),
        decreases expr, 0nat,
    {
        let inner = self.transpile_expr(&expr.expr)?;
        Ok(write_parenthesized(inner.as_str()))
    }

    fn transpile_object_lit(&mut self, object: &ObjectLit) -> (result: Result<
        String,
        TranspileError,
    >)
        ensures
            *final(self) == *old(self),
            shown(result) == object_text(*object, old(self).context()),
        decreases object, 0nat,
    {
        let mut entries: Vec<String> = Vec::new();
        let mut i: usize = 0;
        while i < object.props.len()
            invariant
                i <= object.props.len(),
                *self == *old(self),
                prop_texts(object.props@, 0, self.context()) == continued(
                    entries.deep_view(),
                    prop_texts(object.props@, i as nat, self.context()),
                ),
            decreases object.props.len() - i,
        {
            let ghost done = entries.deep_view();
            let entry = self.transpile_prop(&object.props[i])?;
            entries.push(entry);
            proof {
                assert(entries.deep_view() =~= done.push(entry@));
                lemma_continue(
                    prop_texts(object.props@, 0, self.context()),
                    prop_texts(object.props@, i as nat, self.context()),
                    prop_texts(object.props@, (i + 1) as nat, self.context()),
                    done,
                    entry@,
                );
            }
            i = i + 1;
        }
        proof {
            lemma_finished(prop_texts(object.props@, 0, self.context()), entries.deep_view());
        }
        Ok(write_object(&entries))
    }

    /// Lowers one member of an object literal to its entry.
    fn transpile_prop(&mut self, prop: &PropOrSpread) -> (result: Result<String, TranspileError>)
        ensures
            *final(self) == *old(self),
            shown(result) == prop_text(*prop, old(self).context()),
        decreases prop, 0nat,
    {
        match prop {
            PropOrSpread::Spread => Err(TranspileError::Unsupported(Construct::ObjectSpread)),
            PropOrSpread::Prop(Prop::Shorthand(ident)) => self.transpile_prop_shorthand(ident),
            PropOrSpread::Prop(Prop::KeyValue(key_value)) => self.transpile_prop_keyvalue(
                key_value,
            ),
            PropOrSpread::Prop(Prop::Getter(getter)) => self.transpile_prop_getter(getter),
            PropOrSpread::Prop(Prop::Setter(setter)) => self.transpile_prop_setter(setter),
            PropOrSpread::Prop(Prop::Method(method)) => self.transpile_prop_method(method),
            PropOrSpread::Prop(Prop::Assign) => Err(
                TranspileError::Unsupported(Construct::AssignProperty),
            ),
        }
    }

    fn transpile_prop_method(&mut self, prop: &MethodProp) -> (result: Result<
        String,
        TranspileError,
    >)
        ensures
            *final(self) == *old(self),
            shown(result) == method_text(*prop, old(self).context()),
        decreases prop, 0nat,
    {
        let key = self.transpile_prop_name(&prop.key)?;
        let function = self.transpile_function(&prop.function)?;
        Ok(write_entry(key.as_str(), function.as_str()))
    }

    fn transpile_prop_setter(&mut self, prop: &SetterProp) -> (result: Result<
        String,
        TranspileError,
    >)
        ensures
            *final(self) == *old(self),
            shown(result) == setter_text(*prop, old(self).context()),
        decreases prop, 0nat,
    {
        let ident = match &prop.param {
            Pat::Other(_) => {
                return Err(TranspileError::Malformed(Defect::SetterParameter));
            },
            Pat::Ident(ident) => ident,
        };
        let key = self.transpile_prop_name(&prop.key)?;
        let body = match &prop.body {
            None => {
                return Err(TranspileError::Malformed(Defect::SetterBody));
            },
            Some(block) => self.transpile_block_stmt(block)?,
        };
        let binding = write_param_binding(ident.sym.as_str(), 0);
        let setter = write_function(binding.as_str(), body.as_str());
        let accessors = write_accessors(write_undefined_value().as_str(), setter.as_str());
        Ok(write_entry(key.as_str(), accessors.as_str()))
    }

    fn transpile_prop_getter(&mut self, prop: &GetterProp) -> (result: Result<
        String,
        TranspileError,
    >)
        ensures
            *final(self) == *old(self),
            shown(result) == getter_text(*prop, old(self).context()),
        decreases prop, 0nat,
    {
        let key = self.transpile_prop_name(&prop.key)?;
        let body = match &prop.body {
            None => {
                return Err(TranspileError::Malformed(Defect::GetterBody));
            },
            Some(block) => self.transpile_block_stmt(block)?,
        };
        let nothing = String::new();
        let getter = write_function(nothing.as_str(), body.as_str());
        let accessors = write_accessors(getter.as_str(), write_undefined_value().as_str());
        Ok(write_entry(key.as_str(), accessors.as_str()))
    }

    fn transpile_prop_keyvalue(&mut self, prop: &KeyValueProp) -> (result: Result<
        String,
        TranspileError,
    >)
        ensures
            *final(self) == *old(self),
            shown(result) == key_value_text(*prop, old(self).context()),
        decreases prop, 0nat,
    {
        let key = self.transpile_prop_name(&prop.key)?;
        let value = self.transpile_expr(&prop.value)?;
        Ok(write_entry(key.as_str(), value.as_str()))
    }

    fn transpile_prop_name(&mut self, name: &PropName) -> (result: Result<String, TranspileError>)
        ensures
            *final(self) == *old(self),
            shown(result) == prop_name_text(*name, old(self).context()),
        decreases name, 0nat,
    {
        match name {
            PropName::Ident(ident) => Ok(write_string_value(ident.sym.as_str())),
            PropName::Str(string) => {
                let content = Self::unquoted(string)?;
                Ok(write_quoted(content.as_str()))
            },
            PropName::Computed(expr) => self.transpile_expr(expr),
            PropName::Other(kind) => Err(
                TranspileError::Unsupported(Construct::PropertyName(*kind)),
            ),
        }
    }

    fn transpile_tagged_tpl_expr(&mut self, expr: &TaggedTpl) -> (result: Result<
        String,
        TranspileError,
    >)
        ensures
            *final(self) == *old(self),
            shown(result) == tagged_tpl_text(*expr, old(self).context()),
        decreases expr, 0nat,
    {
        let tag = self.transpile_expr(&expr.tag)?;
        let _tpl = self.transpile_tpl_expr(&expr.tpl)?;
        if tag == String::from_str("raw_cpp") {
            return Ok(expr.tpl.quasis[0].raw.clone());
        }
        Err(TranspileError::Unsupported(Construct::TaggedTemplate))
    }

    fn transpile_bin_expr(&mut self, expr: &BinExpr) -> (result: Result<String, TranspileError>)
        ensures
            *final(self) == *old(self),
            shown(result) == bin_text(*expr, old(self).context()),
        decreases expr, 0nat,
    {
        let left = self.transpile_expr(&expr.left)?;
        let right = self.transpile_expr(&expr.right)?;
        let op = Self::binary_operator(expr.op)?;
        Ok(write_binary(left.as_str(), op, right.as_str()))
    }

    fn transpile_arrow_expr(&mut self, arrow: &ArrowExpr) -> (result: Result<
        String,
        TranspileError,
    >)
        ensures
            *final(self) == *old(self),
            shown(result) == arrow_text(*arrow, old(self).context()),
        decreases arrow, 0nat,
    {
        if arrow.is_async {
            return Err(TranspileError::Unsupported(Construct::AsyncFunction));
        }
        let param_destructure = self.transpile_param_destructure(&arrow.params)?;
        let body = match &arrow.body {
            BlockStmtOrExpr::Expr(expr) => {
                let expr = self.transpile_expr(expr)?;
                write_expression_body(expr.as_str())
            },
            BlockStmtOrExpr::BlockStmt(block) => self.transpile_block_stmt(block)?,
        };
        Ok(write_arrow(param_destructure.as_str(), body.as_str()))
    }

    fn transpile_member_expr(&mut self, expr: &MemberExpr) -> (result: Result<
        String,
        TranspileError,
    >)
        ensures
            *final(self) == *old(self),
            shown(result) == member_text(*expr, old(self).context()),
        decreases expr, 0nat,
    {
        let obj = self.transpile_expr(&expr.obj)?;
        let prop = match &expr.prop {
            MemberProp::Ident(ident) => write_string_value(ident.sym.as_str()),
            MemberProp::Computed(computed) => self.transpile_expr(computed)?,
            MemberProp::PrivateName => {
                return Err(TranspileError::Unsupported(Construct::PrivateMember));
            },
        };
        Ok(write_member(obj, prop.as_str()))
    }

    /// Lowers an element or an argument.
    fn transpile_spreadable(&mut self, item: &ExprOrSpread) -> (result: Result<
        String,
        TranspileError,
    >)
        ensures
            *final(self) == *old(self),
            shown(result) == spreadable_text(*item, old(self).context()),
        decreases item, 0nat,
    {
        if item.spread {
            return Err(TranspileError::Unsupported(Construct::Spread));
        }
        self.transpile_expr(&item.expr)
    }

    fn transpile_call_expr(&mut self, call: &CallExpr) -> (result: Result<String, TranspileError>)
        ensures
            *final(self) == *old(self),
            shown(result) == call_text(*call, old(self).context()),
        decreases call, 0nat,
    {
        let callee = match &call.callee {
            Callee::Other(kind) => {
                return Err(TranspileError::Unsupported(Construct::Callee(*kind)));
            },
            Callee::Expr(callee) => self.transpile_expr(callee)?,
        };
        let mut args: Vec<String> = Vec::new();
        let mut i: usize = 0;
        while i < call.args.len()
            invariant
                i <= call.args.len(),
                *self == *old(self),
                call.callee matches Callee::Expr(target) && expr_text(*target, self.context())
                    == Ok::<Seq<char>, TranspileError>(callee@),
                arg_texts(call.args@, 0, self.context()) == continued(
                    args.deep_view(),
                    arg_texts(call.args@, i as nat, self.context()),
                ),
            decreases call.args.len() - i,
        {
            let ghost done = args.deep_view();
            let value = self.transpile_spreadable(&call.args[i])?;
            let copy = write_value_copy(value.as_str());
            args.push(copy);
            proof {
                assert(args.deep_view() =~= done.push(copy@));
                lemma_continue(
                    arg_texts(call.args@, 0, self.context()),
                    arg_texts(call.args@, i as nat, self.context()),
                    arg_texts(call.args@, (i + 1) as nat, self.context()),
                    done,
                    copy@,
                );
            }
            i = i + 1;
        }
        proof {
            lemma_finished(arg_texts(call.args@, 0, self.context()), args.deep_view());
        }
        Ok(write_call(callee, &args))
    }

    fn transpile_array_literal(&mut self, array: &ArrayLit) -> (result: Result<
        String,
        TranspileError,
    >)
        ensures
            *final(self) == *old(self),
            shown(result) == array_text(*array, old(self).context()),
        decreases array, 0nat,
    {
        let mut elems: Vec<String> = Vec::new();
        let mut i: usize = 0;
        while i < array.elems.len()
            invariant
                i <= array.elems.len(),
                *self == *old(self),
                elem_texts(array.elems@, 0, self.context()) == continued(
                    elems.deep_view(),
                    elem_texts(array.elems@, i as nat, self.context()),
                ),
            decreases array.elems.len() - i,
        {
            let ghost done = elems.deep_view();
            let item = match &array.elems[i] {
                None => {
                    return Err(TranspileError::Unsupported(Construct::ArrayHole));
                },
                Some(item) => item,
            };
            let elem = self.transpile_spreadable(item)?;
            elems.push(elem);
            proof {
                assert(elems.deep_view() =~= done.push(elem@));
                lemma_continue(
                    elem_texts(array.elems@, 0, self.context()),
                    elem_texts(array.elems@, i as nat, self.context()),
                    elem_texts(array.elems@, (i + 1) as nat, self.context()),
                    done,
                    elem@,
                );
            }
            i = i + 1;
        }
        proof {
            lemma_finished(elem_texts(array.elems@, 0, self.context()), elems.deep_view());
        }
        Ok(write_array(&elems))
    }
}

} // verus!
