//! What holds of every translation.

use vstd::prelude::*;
use crate::assembly::{
    definition_lines, include_line, include_lines, init_lines, module_text, translation_unit,
};
use crate::ast::{ArrowExpr, BlockStmtOrExpr, Function, GetterProp, Module, SetterProp};
use crate::globals::GlobalView;
use crate::includes::{
    all_headers, include_paths, lemma_ascending_unique, lemma_sorted_set, lemma_text_lt_irreflexive,
    sorted_set,
};
use crate::lowering::{
    arrow_text, block_text, destructured_params, expr_text, function_text, generator_function_text,
    getter_text, plain_function_text, prop_name_text, setter_text, Context,
};
use crate::shapes::{
    accessors_shape, arrow_shape, entry_shape, expression_body, function_shape, generator_shape,
    has_lambda_signature, lambda_signature, param_binding, undefined_value,
};

verus! {

// ----- one input, one output -----

/// Globals that differ only in how their headers are listed: the same
/// names, statements and factories in the same order, and the same headers
/// among them all, in any order and any number of times.
pub open spec fn same_but_for_header_order(first: Seq<GlobalView>, second: Seq<GlobalView>)
    -> bool {
    &&& first.len() == second.len()
    &&& forall|i: int|
        0 <= i < first.len() ==> (#[trigger] first[i]).name == second[i].name && first[i].init
            == second[i].init && first[i].factory == second[i].factory
    &&& forall|header: Seq<char>|
        all_headers(first).contains(header) <==> all_headers(second).contains(header)
}

proof fn lemma_init_lines_agree(first: Seq<GlobalView>, second: Seq<GlobalView>)
    requires
        first.len() == second.len(),
        forall|i: int| 0 <= i < first.len() ==> (#[trigger] first[i]).init == second[i].init,
    ensures
        init_lines(first) == init_lines(second),
    decreases first.len(),
{
    if first.len() > 0 {
        assert(first.last().init == second.last().init) by {
            assert(first[first.len() - 1].init == second[first.len() - 1].init);
        }
        assert forall|i: int| 0 <= i < first.drop_last().len() implies (#[trigger] first.drop_last()[i]).init
            == second.drop_last()[i].init by {
            assert(first[i].init == second[i].init);
        }
        lemma_init_lines_agree(first.drop_last(), second.drop_last());
    }
}

/// The translation is a function of the globals, the exceptions switch and
/// the module, and it does not tell apart globals that differ only in the
/// order or the repetition of their headers: the text is the same to the
/// byte, and so is a failure.
pub proof fn lemma_translation_is_deterministic(
    first: Seq<GlobalView>,
    second: Seq<GlobalView>,
    exceptions: bool,
    module: Module,
)
    requires
        same_but_for_header_order(first, second),
    ensures
        module_text(first, exceptions, module) == module_text(second, exceptions, module),
{
    lemma_sorted_set(all_headers(first));
    lemma_sorted_set(all_headers(second));
    assert forall|header: Seq<char>|
        include_paths(first).contains(header) <==> include_paths(second).contains(
            header,
        ) by {
        assert(sorted_set(all_headers(first)).contains(header) <==> all_headers(first).contains(
            header,
        ));
        assert(sorted_set(all_headers(second)).contains(header) <==> all_headers(
            second,
        ).contains(header));
    }
    lemma_ascending_unique(include_paths(first), include_paths(second));
    lemma_init_lines_agree(first, second);
    assert(definition_lines(first) =~= definition_lines(second)) by {
        assert forall|i: int| 0 <= i < first.len() implies definition_lines(first)[i]
            == definition_lines(second)[i] by {
            assert(first[i].name == second[i].name && first[i].factory == second[i].factory);
        }
    }
    assert forall|coroutines: bool, statements: Seq<Seq<char>>|
        translation_unit(first, coroutines, statements) == translation_unit(
            second,
            coroutines,
            statements,
        ) by {}
}

// ----- headers -----

proof fn lemma_all_headers_contains(globals: Seq<GlobalView>, global: int, header: int)
    requires
        0 <= global < globals.len(),
        0 <= header < globals[global].headers.len(),
    ensures
        all_headers(globals).contains(globals[global].headers[header]),
    decreases globals.len(),
{
    let before = all_headers(globals.drop_last());
    let own = globals.last().headers;
    if global == globals.len() - 1 {
        assert((before + own)[before.len() + header] == own[header]);
    } else {
        lemma_all_headers_contains(globals.drop_last(), global, header);
        let wanted = globals[global].headers[header];
        let k = choose|k: int| 0 <= k < before.len() && before[k] == wanted;
        assert((before + own)[k] == wanted);
    }
}

/// Two headers with the same include line are the same header.
proof fn lemma_include_line_injective(a: Seq<char>, b: Seq<char>)
    requires
        include_line(a) == include_line(b),
    ensures
        a == b,
{
    let head = "#include \""@;
    let tail = "\""@;
    assert(include_line(a).len() == head.len() + a.len() + tail.len());
    assert(include_line(b).len() == head.len() + b.len() + tail.len());
    assert forall|i: int| 0 <= i < a.len() implies a[i] == b[i] by {
        assert(include_line(a)[head.len() + i] == a[i]);
        assert(include_line(b)[head.len() + i] == b[i]);
    }
    assert(a =~= b);
}

/// Every header of every registered global has its line among the include
/// lines for the globals, and has it there once: at one position and no
/// other.
pub proof fn lemma_header_included_once(globals: Seq<GlobalView>, global: int, header: int)
    requires
        0 <= global < globals.len(),
        0 <= header < globals[global].headers.len(),
    ensures
        exists|i: int|
            0 <= i < include_lines(include_paths(globals)).len() && include_lines(
                include_paths(globals),
            )[i] == include_line(globals[global].headers[header]),
        forall|i: int, j: int|
            0 <= i < include_lines(include_paths(globals)).len() && 0 <= j < include_lines(
                include_paths(globals),
            ).len() && include_lines(include_paths(globals))[i] == include_line(
                globals[global].headers[header],
            ) && include_lines(include_paths(globals))[j] == include_line(
                globals[global].headers[header],
            ) ==> i == j,
{
    let wanted = globals[global].headers[header];
    let paths = include_paths(globals);
    let lines = include_lines(paths);
    lemma_all_headers_contains(globals, global, header);
    lemma_sorted_set(all_headers(globals));
    assert(paths.contains(wanted));
    let at = choose|i: int| 0 <= i < paths.len() && paths[i] == wanted;
    assert(lines[at] == include_line(wanted));
    assert forall|i: int, j: int|
        0 <= i < lines.len() && 0 <= j < lines.len() && lines[i] == include_line(wanted)
            && lines[j] == include_line(wanted) implies i == j by {
        lemma_include_line_injective(paths[i], wanted);
        lemma_include_line_injective(paths[j], wanted);
        lemma_text_lt_irreflexive(wanted);
        if i < j {
            assert(crate::includes::text_lt(paths[i], paths[j]));
        }
        if j < i {
            assert(crate::includes::text_lt(paths[j], paths[i]));
        }
    }
}

// ----- functions -----

/// Each of the three shapes of a function is a lambda that takes
/// `(JSValue thisArg, std::vector<JSValue>& args)`.
pub proof fn lemma_function_shapes_have_signature(bindings: Seq<char>, body: Seq<char>)
    ensures
        has_lambda_signature(arrow_shape(bindings, body)),
        has_lambda_signature(function_shape(bindings, body)),
        has_lambda_signature(generator_shape(bindings, body)),
{
    let start = "[=]"@ + lambda_signature() + " mutable"@;
    assert(has_lambda_signature(arrow_shape(bindings, body))) by {
        let before = "JSValue::new_function("@;
        let after = Seq::<char>::empty() + " { "@ + bindings + "; "@ + body + "; })"@;
        assert(arrow_shape(bindings, body) =~= before + "[=]"@ + lambda_signature()
            + " mutable"@ + after);
    }
    assert(has_lambda_signature(function_shape(bindings, body))) by {
        let before = "JSValue::new_function("@;
        let after = " -> JSValue"@ + " { "@ + bindings + "; "@ + body
            + "; return JSValue::undefined(); })"@;
        assert(function_shape(bindings, body) =~= before + "[=]"@ + lambda_signature()
            + " mutable"@ + after);
    }
    assert(has_lambda_signature(generator_shape(bindings, body))) by {
        let before = "JSValue::new_generator_function("@;
        let after = " -> JSGeneratorAdapter"@ + " { "@ + bindings + "; "@ + body
            + "; co_return; })"@;
        assert(generator_shape(bindings, body) =~= before + "[=]"@ + lambda_signature()
            + " mutable"@ + after);
    }
}

/// A text that holds a lambda still holds it with more text around it.
proof fn lemma_signature_inside(before: Seq<char>, text: Seq<char>, after: Seq<char>)
    requires
        has_lambda_signature(text),
    ensures
        has_lambda_signature(before + text + after),
{
    let (b, a) = choose|b: Seq<char>, a: Seq<char>|
        text == b + "[=]"@ + lambda_signature() + " mutable"@ + a;
    assert(before + text + after =~= (before + b) + "[=]"@ + lambda_signature() + " mutable"@ + (a
        + after));
}

/// The text of a `function` or of a generator function is a lambda that
/// takes `(JSValue thisArg, std::vector<JSValue>& args)`.
pub proof fn lemma_function_has_signature(function: Function, cx: Context)
    ensures
        function_text(function, cx) matches Ok(text) ==> has_lambda_signature(text),
{
    if function_text(function, cx) is Ok {
        let bindings = destructured_params(function.params@)->Ok_0;
        if function.is_generator {
            assert(generator_function_text(function, cx) is Ok);
            let inside = Context { exceptions: cx.exceptions, in_generator: true };
            let body = block_text(function.body->0, inside)->Ok_0;
            lemma_function_shapes_have_signature(bindings, body);
        } else {
            assert(plain_function_text(function, cx) is Ok);
            let body = block_text(function.body->0, cx)->Ok_0;
            lemma_function_shapes_have_signature(bindings, body);
        }
    }
}

/// The text of an arrow function is a lambda that takes
/// `(JSValue thisArg, std::vector<JSValue>& args)`.
pub proof fn lemma_arrow_has_signature(arrow: ArrowExpr, cx: Context)
    ensures
        arrow_text(arrow, cx) matches Ok(text) ==> has_lambda_signature(text),
{
    if arrow_text(arrow, cx) is Ok {
        let bindings = destructured_params(arrow.params@)->Ok_0;
        match arrow.body {
            BlockStmtOrExpr::Expr(expr) => {
                let body = expression_body(expr_text(*expr, cx)->Ok_0);
                lemma_function_shapes_have_signature(bindings, body);
            },
            BlockStmtOrExpr::BlockStmt(block) => {
                let body = block_text(block, cx)->Ok_0;
                lemma_function_shapes_have_signature(bindings, body);
            },
        }
    }
}

/// The entry of a getter holds a lambda that takes
/// `(JSValue thisArg, std::vector<JSValue>& args)`.
pub proof fn lemma_getter_has_signature(getter: GetterProp, cx: Context)
    ensures
        getter_text(getter, cx) matches Ok(text) ==> has_lambda_signature(text),
{
    if let Ok(text) = getter_text(getter, cx) {
        let key = prop_name_text(getter.key, cx)->Ok_0;
        let body = block_text(getter.body->0, cx)->Ok_0;
        let function = function_shape(Seq::empty(), body);
        lemma_function_shapes_have_signature(Seq::empty(), body);
        lemma_signature_inside(
            "JSValueBinding::with_getter_setter("@,
            function,
            ", "@ + undefined_value() + ")"@,
        );
        let accessors = accessors_shape(function, undefined_value());
        assert(accessors =~= "JSValueBinding::with_getter_setter("@ + function + (", "@
            + undefined_value() + ")"@));
        lemma_signature_inside("{"@ + key + ", "@, accessors, "}"@);
        assert(text == entry_shape(key, accessors));
    }
}

/// The entry of a setter holds a lambda that takes
/// `(JSValue thisArg, std::vector<JSValue>& args)`.
pub proof fn lemma_setter_has_signature(setter: SetterProp, cx: Context)
    ensures
        setter_text(setter, cx) matches Ok(text) ==> has_lambda_signature(text),
{
    if let Ok(text) = setter_text(setter, cx) {
        let key = prop_name_text(setter.key, cx)->Ok_0;
        let body = block_text(setter.body->0, cx)->Ok_0;
        let name = setter.param->Ident_0.sym@;
        let function = function_shape(param_binding(name, 0), body);
        lemma_function_shapes_have_signature(param_binding(name, 0), body);
        lemma_signature_inside(
            "JSValueBinding::with_getter_setter("@ + undefined_value() + ", "@,
            function,
            ")"@,
        );
        let accessors = accessors_shape(undefined_value(), function);
        lemma_signature_inside("{"@ + key + ", "@, accessors, "}"@);
        assert(text == entry_shape(key, accessors));
    }
}

} // verus!
