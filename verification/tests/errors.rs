//! Failures on trees that no parser hands out: nodes with a child missing,
//! and kinds that only other dialects have.

use jsxx::ast::{
    ArrowExpr, AssignExpr, AssignOp, AssignTarget, BlockStmt, BlockStmtOrExpr, BreakStmt, Decl,
    DeclKind, Expr, ExprKind, ExprStmt, FnDecl, FnExpr, ForHead, ForOfStmt, Function, GetterProp,
    Ident, Lit, LitKind, MemberExpr, MemberProp, MethodProp, Module, ModuleDeclKind, ModuleItem,
    ObjectLit, Pat, PatKind, Prop, PropName, PropOrSpread, SetterProp, Stmt, Str, TaggedTpl, Tpl,
    TplElement, VarDecl, VarDeclKind, VarDeclarator,
};
use jsxx::error::{Construct, Defect, ErrorKind, Gated, TranspileError};
use jsxx::transpiler::Transpiler;

fn ident(name: &str) -> Ident {
    Ident { sym: name.to_string() }
}

fn name(name: &str) -> Box<Expr> {
    Box::new(Expr::Ident(ident(name)))
}

fn expr_stmt(expr: Expr) -> Stmt {
    Stmt::Expr(ExprStmt { expr: Box::new(expr) })
}

fn empty_block() -> BlockStmt {
    BlockStmt { stmts: vec![] }
}

fn object(prop: Prop) -> Expr {
    Expr::Object(ObjectLit { props: vec![PropOrSpread::Prop(prop)] })
}

fn translate(stmt: Stmt) -> Result<String, TranspileError> {
    Transpiler::new().transpile_module(&Module { body: vec![ModuleItem::Stmt(stmt)] })
}

fn failure(stmt: Stmt) -> TranspileError {
    match translate(stmt) {
        Ok(unit) => panic!("the statement is translated: {}", unit),
        Err(error) => error,
    }
}

/// The one statement of a module with no globals, as it is written.
fn lowered(stmt: Stmt) -> String {
    let unit = translate(stmt).unwrap();
    let text = unit
        .strip_prefix("#include \"runtime/js_value.hpp\"\n\nint main() {\n")
        .and_then(|rest| rest.strip_suffix(";\nreturn 0; }\n"));
    match text {
        Some(text) => text.to_string(),
        None => panic!("unexpected frame around {}", unit),
    }
}

#[test]
fn function_without_a_body_is_malformed() {
    for is_generator in [false, true] {
        let function = Function { params: vec![], body: None, is_generator, is_async: false };
        let error = failure(expr_stmt(Expr::Fn(FnExpr { function })));
        assert_eq!(error, TranspileError::Malformed(Defect::FunctionBody));
        assert_eq!(error.kind(), ErrorKind::MalformedAst);
    }
    let function = Function { params: vec![], body: None, is_generator: false, is_async: false };
    let decl = Stmt::Decl(Decl::Fn(FnDecl { ident: ident("f"), function }));
    assert_eq!(failure(decl), TranspileError::Malformed(Defect::FunctionBody));
    let function = Function { params: vec![], body: None, is_generator: false, is_async: false };
    let method = Prop::Method(MethodProp { key: PropName::Ident(ident("m")), function });
    assert_eq!(failure(expr_stmt(object(method))), TranspileError::Malformed(Defect::FunctionBody));
}

#[test]
fn parameters_are_looked_at_before_the_body() {
    let function = Function {
        params: vec![Pat::Other(PatKind::Invalid)],
        body: None,
        is_generator: false,
        is_async: false,
    };
    assert_eq!(
        failure(expr_stmt(Expr::Fn(FnExpr { function }))),
        TranspileError::Unsupported(Construct::ParameterPattern(PatKind::Invalid))
    );
}

#[test]
fn async_is_looked_at_before_anything_else_of_a_function() {
    let function = Function {
        params: vec![Pat::Other(PatKind::Invalid)],
        body: None,
        is_generator: true,
        is_async: true,
    };
    assert_eq!(
        failure(expr_stmt(Expr::Fn(FnExpr { function }))),
        TranspileError::Unsupported(Construct::AsyncFunction)
    );
}

#[test]
fn getter_without_a_body_is_malformed() {
    let getter = Prop::Getter(GetterProp { key: PropName::Ident(ident("p")), body: None });
    assert_eq!(failure(expr_stmt(object(getter))), TranspileError::Malformed(Defect::GetterBody));
}

#[test]
fn setter_without_a_body_is_malformed() {
    let setter = Prop::Setter(SetterProp {
        key: PropName::Ident(ident("p")),
        param: Pat::Ident(ident("v")),
        body: None,
    });
    assert_eq!(failure(expr_stmt(object(setter))), TranspileError::Malformed(Defect::SetterBody));
}

#[test]
fn setter_parameter_that_is_no_identifier_is_malformed() {
    let setter = Prop::Setter(SetterProp {
        key: PropName::Other(jsxx::ast::PropNameKind::Num),
        param: Pat::Other(PatKind::Array),
        body: None,
    });
    assert_eq!(
        failure(expr_stmt(object(setter))),
        TranspileError::Malformed(Defect::SetterParameter)
    );
}

#[test]
fn let_without_a_declarator_is_malformed() {
    let decl = VarDecl { kind: VarDeclKind::Let, decls: vec![] };
    assert_eq!(failure(Stmt::Decl(Decl::Var(decl))), TranspileError::Malformed(Defect::Declarator));
    let decl = VarDecl { kind: VarDeclKind::Var, decls: vec![] };
    assert_eq!(
        failure(Stmt::Decl(Decl::Var(decl))),
        TranspileError::Unsupported(Construct::VarKind(VarDeclKind::Var))
    );
}

#[test]
fn template_without_text_is_malformed() {
    let tpl = Tpl { exprs: vec![], quasis: vec![] };
    assert_eq!(failure(expr_stmt(Expr::Tpl(tpl))), TranspileError::Malformed(Defect::TemplateText));
    let tpl = Tpl { exprs: vec![Expr::This], quasis: vec![] };
    assert_eq!(
        failure(expr_stmt(Expr::Tpl(tpl))),
        TranspileError::Unsupported(Construct::TemplateInterpolation)
    );
    let tagged = TaggedTpl { tag: name("raw_cpp"), tpl: Tpl { exprs: vec![], quasis: vec![] } };
    assert_eq!(
        failure(expr_stmt(Expr::TaggedTpl(tagged))),
        TranspileError::Malformed(Defect::TemplateText)
    );
}

fn string(value: &str, raw: Option<&str>) -> Stmt {
    let raw = raw.map(|raw| raw.to_string());
    expr_stmt(Expr::Lit(Lit::Str(Str { value: value.to_string(), raw })))
}

#[test]
fn string_without_room_for_its_quotes_is_malformed() {
    let error = TranspileError::Malformed(Defect::StringQuotes);
    assert_eq!(failure(string("", Some(""))), error);
    assert_eq!(failure(string("a", Some("a"))), error);
    assert_eq!(failure(string("é", Some("é"))), error);
}

#[test]
fn string_is_written_from_its_source_text_where_there_is_one() {
    assert_eq!(lowered(string("", Some("\"\""))), "JSValue{\"\"};");
    assert_eq!(lowered(string("a\nb", Some("\"a\\nb\""))), "JSValue{\"a\\nb\"};");
    assert_eq!(lowered(string("é", Some("'é'"))), "JSValue{\"é\"};");
    assert_eq!(lowered(string("日本", Some("\"日本\""))), "JSValue{\"日本\"};");
    assert_eq!(lowered(string("value", None)), "JSValue{\"value\"};");
    assert_eq!(lowered(string("value", Some("'other'"))), "JSValue{\"other\"};");
}

#[test]
fn kinds_of_other_dialects_have_no_lowering() {
    for kind in [ExprKind::Jsx, ExprKind::TypeScript, ExprKind::Invalid, ExprKind::PrivateName] {
        let error = failure(expr_stmt(Expr::Other(kind)));
        assert_eq!(error, TranspileError::Unsupported(Construct::Expression(kind)));
        assert_eq!(error.kind(), ErrorKind::UnsupportedConstruct);
    }
    for kind in [DeclKind::Using, DeclKind::TypeScript] {
        assert_eq!(
            failure(Stmt::Decl(Decl::Other(kind))),
            TranspileError::Unsupported(Construct::Declaration(kind))
        );
    }
    assert_eq!(
        failure(expr_stmt(Expr::Lit(Lit::Other(LitKind::JsxText)))),
        TranspileError::Unsupported(Construct::Literal(LitKind::JsxText))
    );
    assert_eq!(
        failure(Stmt::Other(jsxx::ast::StmtKind::With)),
        TranspileError::Unsupported(Construct::Statement(jsxx::ast::StmtKind::With))
    );
    let module = Module { body: vec![ModuleItem::ModuleDecl(ModuleDeclKind::TypeScript)] };
    assert_eq!(
        Transpiler::new().transpile_module(&module),
        Err(TranspileError::Unsupported(Construct::ModuleDeclaration(ModuleDeclKind::TypeScript)))
    );
}

fn for_of(is_await: bool, left: ForHead) -> Stmt {
    Stmt::ForOf(ForOfStmt {
        is_await,
        left,
        right: name("items"),
        body: Box::new(Stmt::Block(empty_block())),
    })
}

fn let_item() -> VarDecl {
    VarDecl {
        kind: VarDeclKind::Let,
        decls: vec![VarDeclarator { name: Pat::Ident(ident("item")), init: None }],
    }
}

#[test]
fn for_await_has_no_lowering() {
    assert_eq!(
        failure(for_of(true, ForHead::VarDecl(let_item()))),
        TranspileError::Unsupported(Construct::ForAwait)
    );
    assert_eq!(
        lowered(for_of(false, ForHead::VarDecl(let_item()))),
        "for (JSValue item : items) { {  }; };"
    );
}

#[test]
fn for_of_must_declare_its_variable() {
    for head in [ForHead::UsingDecl, ForHead::Pat(Pat::Ident(ident("item")))] {
        assert_eq!(failure(for_of(false, head)), TranspileError::Unsupported(Construct::ForOfHead));
    }
}

#[test]
fn break_with_a_label_has_no_lowering() {
    assert_eq!(
        failure(Stmt::Break(BreakStmt { label: Some(ident("outer")) })),
        TranspileError::Unsupported(Construct::LabeledBreak)
    );
    assert_eq!(lowered(Stmt::Break(BreakStmt { label: None })), "break;");
}

#[test]
fn private_member_has_no_lowering() {
    let member = MemberExpr { obj: Box::new(Expr::This), prop: MemberProp::PrivateName };
    assert_eq!(
        failure(expr_stmt(Expr::Member(member))),
        TranspileError::Unsupported(Construct::PrivateMember)
    );
}

#[test]
fn assignment_inside_an_object_literal_has_no_lowering() {
    assert_eq!(
        failure(expr_stmt(object(Prop::Assign))),
        TranspileError::Unsupported(Construct::AssignProperty)
    );
}

#[test]
fn assignment_to_an_invalid_pattern_has_no_lowering() {
    let assign = AssignExpr {
        op: AssignOp::Assign,
        left: AssignTarget::Pat(PatKind::Invalid),
        right: name("value"),
    };
    assert_eq!(
        failure(expr_stmt(Expr::Assign(assign))),
        TranspileError::Unsupported(Construct::AssignPattern(PatKind::Invalid))
    );
}

#[test]
fn tag_is_compared_as_it_is_written() {
    let tpl = || Tpl { exprs: vec![], quasis: vec![TplElement { raw: "1 + 1".to_string() }] };
    let tagged = TaggedTpl { tag: name("raw_cpp"), tpl: tpl() };
    assert_eq!(lowered(expr_stmt(Expr::TaggedTpl(tagged))), "1 + 1;");
    let tagged = TaggedTpl { tag: name("raw_cpp2"), tpl: tpl() };
    assert_eq!(
        failure(expr_stmt(Expr::TaggedTpl(tagged))),
        TranspileError::Unsupported(Construct::TaggedTemplate)
    );
    let inner = TaggedTpl {
        tag: name("raw_cpp"),
        tpl: Tpl { exprs: vec![], quasis: vec![TplElement { raw: "raw_cpp".to_string() }] },
    };
    let tagged = TaggedTpl { tag: Box::new(Expr::TaggedTpl(inner)), tpl: tpl() };
    assert_eq!(lowered(expr_stmt(Expr::TaggedTpl(tagged))), "1 + 1;");
}

#[test]
fn arrow_with_a_block() {
    let arrow = ArrowExpr {
        params: vec![Pat::Ident(ident("x"))],
        body: BlockStmtOrExpr::BlockStmt(empty_block()),
        is_async: false,
    };
    assert_eq!(
        lowered(expr_stmt(Expr::Arrow(arrow))),
        "JSValue::new_function([=](JSValue thisArg, std::vector<JSValue>& args) mutable { \
         JSValue x = args[0];; {  }; });"
    );
}

#[test]
fn the_three_kinds_of_failure() {
    assert_eq!(
        TranspileError::Unsupported(Construct::Spread).kind(),
        ErrorKind::UnsupportedConstruct
    );
    assert_eq!(TranspileError::Malformed(Defect::GetterBody).kind(), ErrorKind::MalformedAst);
    assert_eq!(TranspileError::FeatureGate(Gated::Try).kind(), ErrorKind::FeatureGateViolation);
    assert_eq!(ErrorKind::UnsupportedConstruct.name(), "unsupported-construct");
    assert_eq!(ErrorKind::MalformedAst.name(), "malformed-ast");
    assert_eq!(ErrorKind::FeatureGateViolation.name(), "feature-gate-violation");
}
