//! The translation unit as a whole, and what holds of every translation.

use jsxx::ast::{
    ArrowExpr, AssignExpr, AssignOp, AssignTarget, BlockStmt, BlockStmtOrExpr, CallExpr, Callee,
    Decl, Expr, ExprKind, ExprOrSpread, ExprStmt, FnDecl, FnExpr, Function, GetterProp, Ident,
    IfStmt, MemberExpr, MemberProp, Module, ModuleDeclKind, ModuleItem, ObjectLit, Pat, Prop,
    PropName, PropOrSpread, ReturnStmt, SetterProp, Stmt, StmtKind,
};
use jsxx::error::{Construct, TranspileError};
use jsxx::globals::io::io_global;
use jsxx::globals::Global;
use jsxx::transpiler::Transpiler;

const SIGNATURE: &str = "[=](JSValue thisArg, std::vector<JSValue>& args) mutable";

fn ident(name: &str) -> Ident {
    Ident { sym: name.to_string() }
}

fn name(name: &str) -> Box<Expr> {
    Box::new(Expr::Ident(ident(name)))
}

fn expr_stmt(expr: Expr) -> ModuleItem {
    ModuleItem::Stmt(Stmt::Expr(ExprStmt { expr: Box::new(expr) }))
}

fn function(is_generator: bool, stmts: Vec<Stmt>) -> Function {
    Function {
        params: vec![Pat::Ident(ident("x"))],
        body: Some(BlockStmt { stmts }),
        is_generator,
        is_async: false,
    }
}

fn global(name: &str, headers: Option<&[&str]>, init: Option<&str>, factory: &str) -> Global {
    Global {
        name: name.to_string(),
        additional_headers: headers
            .map(|headers| headers.iter().map(|header| header.to_string()).collect()),
        init: init.map(|init| init.to_string()),
        factory: factory.to_string(),
    }
}

/// `x = f(x);`
fn sample() -> Module {
    let call = CallExpr {
        callee: Callee::Expr(name("f")),
        args: vec![ExprOrSpread { spread: false, expr: name("x") }],
    };
    let assign = AssignExpr {
        op: AssignOp::Assign,
        left: AssignTarget::Ident(ident("x")),
        right: Box::new(Expr::Call(call)),
    };
    Module { body: vec![expr_stmt(Expr::Assign(assign))] }
}

#[test]
fn empty_module_is_an_empty_main() {
    let mut transpiler = Transpiler::new();
    let module = Module { body: vec![] };
    assert_eq!(
        transpiler.transpile_module(&module),
        Ok("#include \"runtime/js_value.hpp\"\n\nint main() {\nreturn 0; }\n".to_string())
    );
}

#[test]
fn new_translator_has_no_globals_and_allows_exceptions() {
    let transpiler = Transpiler::new();
    assert!(transpiler.globals.is_empty());
    assert!(transpiler.feature_exceptions);
    assert!(!transpiler.is_lhs);
    assert!(!transpiler.is_generator);
}

#[test]
fn main_initialises_then_defines_the_globals_in_their_order() {
    let mut transpiler = Transpiler::new();
    transpiler.globals.push(global("B", Some(&["b.hpp"]), Some("init_b();"), "make_b()"));
    transpiler.globals.push(global("A", None, None, "make_a()"));
    transpiler.globals.push(global("C", Some(&["a.hpp", "b.hpp"]), Some("init_c();"), "make_c(B)"));
    let expected = "#include \"a.hpp\"\n\
                    #include \"b.hpp\"\n\
                    #include \"runtime/js_value.hpp\"\n\
                    \n\
                    int main() {\n\
                    init_b();\n\
                    init_c();\n\
                    auto B = make_b();\n\
                    auto A = make_a();\n\
                    auto C = make_c(B);\n\
                    x = *(f({*(x).value})).value;;\n\
                    return 0; }\n";
    assert_eq!(transpiler.transpile_module(&sample()), Ok(expected.to_string()));
    assert_eq!(transpiler.globals.len(), 3);
}

#[test]
fn same_global_twice_is_defined_twice_and_included_once() {
    let mut transpiler = Transpiler::new();
    transpiler.globals.push(io_global());
    transpiler.globals.push(io_global());
    let unit = transpiler.transpile_module(&Module { body: vec![] }).unwrap();
    assert_eq!(unit.matches("#include \"runtime/global_io.hpp\"\n").count(), 1);
    assert_eq!(unit.matches("auto IO = create_IO_global();\n").count(), 2);
}

#[test]
fn translation_is_deterministic() {
    let mut first = Transpiler::new();
    first.globals.push(global("A", Some(&["x.hpp", "m.hpp"]), None, "a()"));
    first.globals.push(global("B", Some(&["a.hpp"]), None, "b()"));
    let once = first.transpile_module(&sample());
    let again = first.transpile_module(&sample());
    assert_eq!(once, again);

    // The same headers, listed in another order and more than once.
    let mut second = Transpiler::new();
    second.globals.push(global("A", Some(&["a.hpp", "a.hpp"]), None, "a()"));
    second.globals.push(global("B", Some(&["m.hpp", "x.hpp", "a.hpp"]), None, "b()"));
    assert_eq!(second.transpile_module(&sample()), once);
    assert!(once.unwrap().starts_with(
        "#include \"a.hpp\"\n#include \"m.hpp\"\n#include \"x.hpp\"\n#include \"runtime/js_value.hpp\"\n"
    ));
}

#[test]
fn every_header_is_included_once() {
    let mut transpiler = Transpiler::new();
    let lists: [&[&str]; 4] =
        [&["one.hpp", "two.hpp"], &["two.hpp"], &[], &["three.hpp", "one.hpp", "three.hpp"]];
    for (index, headers) in lists.iter().enumerate() {
        transpiler.globals.push(global(&format!("g{}", index), Some(headers), None, "make()"));
    }
    let unit = transpiler.transpile_module(&sample()).unwrap();
    for headers in lists {
        for header in headers {
            let line = format!("#include \"{}\"\n", header);
            assert_eq!(unit.matches(&line).count(), 1, "{}", header);
        }
    }
    assert_eq!(unit.matches("#include").count(), 4);
}

#[test]
fn every_emitted_function_has_the_signature() {
    let block = || BlockStmt { stmts: vec![] };
    let key = || PropName::Ident(ident("p"));
    let arrow = ArrowExpr {
        params: vec![],
        body: BlockStmtOrExpr::Expr(name("x")),
        is_async: false,
    };
    let getter = Prop::Getter(GetterProp { key: key(), body: Some(block()) });
    let setter =
        Prop::Setter(SetterProp { key: key(), param: Pat::Ident(ident("v")), body: Some(block()) });
    let object = |prop| Expr::Object(ObjectLit { props: vec![PropOrSpread::Prop(prop)] });
    let exprs = vec![
        Expr::Fn(FnExpr { function: function(false, vec![]) }),
        Expr::Fn(FnExpr { function: function(true, vec![]) }),
        Expr::Arrow(arrow),
        object(getter),
        object(setter),
    ];
    for expr in exprs {
        let module = Module { body: vec![expr_stmt(expr)] };
        let unit = Transpiler::new().transpile_module(&module).unwrap();
        assert_eq!(unit.matches(SIGNATURE).count(), 1, "{}", unit);
        assert_eq!(unit.matches("[=]").count(), 1, "{}", unit);
    }
}

/// `function* g(x) { x.p = x; return; }`
fn generator_with_assignment() -> Module {
    let member = MemberExpr { obj: name("x"), prop: MemberProp::Ident(ident("p")) };
    let assign = AssignExpr {
        op: AssignOp::Assign,
        left: AssignTarget::Expr(Box::new(Expr::Member(member))),
        right: name("x"),
    };
    let body = vec![
        Stmt::Expr(ExprStmt { expr: Box::new(Expr::Assign(assign)) }),
        Stmt::Return(ReturnStmt { arg: None }),
    ];
    let decl = FnDecl { ident: ident("g"), function: function(true, body) };
    Module { body: vec![ModuleItem::Stmt(Stmt::Decl(Decl::Fn(decl)))] }
}

#[test]
fn flags_are_clear_after_a_translation() {
    let mut transpiler = Transpiler::new();
    let unit = transpiler.transpile_module(&generator_with_assignment()).unwrap();
    assert!(unit.contains("{ x[JSValue{\"p\"}] = *(x).value;;\nco_return ;; }"));
    assert!(!transpiler.is_lhs);
    assert!(!transpiler.is_generator);

    // A plain function that is translated next returns in the plain way.
    let decl = FnDecl {
        ident: ident("f"),
        function: function(false, vec![Stmt::Return(ReturnStmt { arg: None })]),
    };
    let module = Module { body: vec![ModuleItem::Stmt(Stmt::Decl(Decl::Fn(decl)))] };
    let unit = transpiler.transpile_module(&module).unwrap();
    assert!(unit.contains("{ return ;; }"));
}

#[test]
fn flags_are_clear_after_a_failure_inside_a_generator_or_an_assignment() {
    let broken = |target: Expr| {
        let assign = AssignExpr {
            op: AssignOp::Assign,
            left: AssignTarget::Expr(Box::new(target)),
            right: name("x"),
        };
        let body = vec![Stmt::Expr(ExprStmt { expr: Box::new(Expr::Assign(assign)) })];
        let decl = FnDecl { ident: ident("g"), function: function(true, body) };
        Module { body: vec![ModuleItem::Stmt(Stmt::Decl(Decl::Fn(decl)))] }
    };
    let mut transpiler = Transpiler::new();
    assert_eq!(
        transpiler.transpile_module(&broken(Expr::Other(ExprKind::SuperProp))),
        Err(TranspileError::Unsupported(Construct::Expression(ExprKind::SuperProp)))
    );
    assert!(!transpiler.is_lhs);
    assert!(!transpiler.is_generator);
    assert!(transpiler.transpile_module(&sample()).is_ok());
}

#[test]
fn flags_that_were_set_do_not_reach_into_a_translation() {
    let mut transpiler = Transpiler::new();
    transpiler.is_lhs = true;
    transpiler.is_generator = true;
    let ret = Stmt::Return(ReturnStmt { arg: None });
    let unit = transpiler.transpile_module(&Module { body: vec![ModuleItem::Stmt(ret)] });
    assert_eq!(
        unit,
        Ok("#include \"runtime/js_value.hpp\"\n\nint main() {\nreturn ;;;\nreturn 0; }\n".to_string())
    );
    assert!(!transpiler.is_lhs);
    assert!(!transpiler.is_generator);
}

#[test]
fn import_is_rejected() {
    let mut transpiler = Transpiler::new();
    let module = Module { body: vec![ModuleItem::ModuleDecl(ModuleDeclKind::Import)] };
    assert_eq!(
        transpiler.transpile_module(&module),
        Err(TranspileError::Unsupported(Construct::ModuleDeclaration(ModuleDeclKind::Import)))
    );
}

#[test]
fn construct_without_a_lowering_fails_the_whole_module_wherever_it_stands() {
    // f(x); if (x) { (x => { switch ... })(x); }
    let arrow = ArrowExpr {
        params: vec![Pat::Ident(ident("x"))],
        body: BlockStmtOrExpr::BlockStmt(BlockStmt {
            stmts: vec![
                Stmt::Return(ReturnStmt { arg: Some(name("x")) }),
                Stmt::Other(StmtKind::Switch),
            ],
        }),
        is_async: false,
    };
    let call = CallExpr { callee: Callee::Expr(Box::new(Expr::Arrow(arrow))), args: vec![] };
    let nested = Stmt::If(IfStmt {
        test: name("x"),
        cons: Box::new(Stmt::Expr(ExprStmt { expr: Box::new(Expr::Call(call)) })),
        alt: None,
    });
    let mut body = sample().body;
    body.push(ModuleItem::Stmt(nested));
    body.extend(sample().body);
    assert_eq!(
        Transpiler::new().transpile_module(&Module { body }),
        Err(TranspileError::Unsupported(Construct::Statement(StmtKind::Switch)))
    );
}
