//! Writing the shapes of the generated text.
//!
//! Each function builds the string that the shape of the same name in
//! [`crate::shapes`] describes.

use vstd::prelude::*;
use crate::shapes::{
    accessors_shape, array_shape, arrow_shape, assignment_shape, binary_shape, block_shape,
    bool_value, call_shape, conditional_shape, declaration_shape, entry_shape, expression_body,
    fn_decl_shape, for_of_shape, for_shape, function_shape, generator_shape, if_shape,
    initialized_shape, lambda_head, member_shape, number_value, object_shape, param_binding,
    parenthesized, quoted, return_shape, statement_shape, string_value, throw_shape, truth_of,
    try_shape, undefined_value, update_shape, value_copy, while_shape, yield_shape,
};
use crate::text::{join, to_decimal};

verus! {

/// Writes a string in the runtime's value type.
pub fn write_string_value(text: &str) -> (out: String)
    ensures
        out@ == string_value(text@),
{
    let mut out = String::from_str("JSValue{\"");
    out.append(text);
    out.append("\"}");
    out
}

/// Writes a number in the runtime's value type.
pub fn write_number_value(value: &str) -> (out: String)
    ensures
        out@ == number_value(value@),
{
    let mut out = String::from_str("JSValue{static_cast<double>(");
    out.append(value);
    out.append(")}");
    out
}

/// Writes a bare C++ string literal.
pub fn write_quoted(text: &str) -> (out: String)
    ensures
        out@ == quoted(text@),
{
    let mut out = String::from_str("\"");
    out.append(text);
    out.append("\"");
    out
}

/// Writes the copy of the value that an expression denotes.
pub fn write_value_copy(expr: &str) -> (out: String)
    ensures
        out@ == value_copy(expr@),
{
    let mut out = String::from_str("*(");
    out.append(expr);
    out.append(").value");
    out
}

/// Writes `(inner)`.
pub fn write_parenthesized(inner: &str) -> (out: String)
    ensures
        out@ == parenthesized(inner@),
{
    let mut out = String::from_str("(");
    out.append(inner);
    out.append(")");
    out
}

/// Writes a test as C++ takes it.
pub fn write_truth_of(test: &str) -> (out: String)
    ensures
        out@ == truth_of(test@),
{
    let mut out = String::from_str("(");
    out.append(test);
    out.append(").coerce_to_bool()");
    out
}

/// Writes one entry of an object literal.
pub fn write_entry(key: &str, binding: &str) -> (out: String)
    ensures
        out@ == entry_shape(key@, binding@),
{
    let mut out = String::from_str("{");
    out.append(key);
    out.append(", ");
    out.append(binding);
    out.append("}");
    out
}

/// Writes the binding of a property with accessors.
pub fn write_accessors(getter: &str, setter: &str) -> (out: String)
    ensures
        out@ == accessors_shape(getter@, setter@),
{
    let mut out = String::from_str("JSValueBinding::with_getter_setter(");
    out.append(getter);
    out.append(", ");
    out.append(setter);
    out.append(")");
    out
}

/// Writes a binary operation.
pub fn write_binary(left: &str, op: &str, right: &str) -> (out: String)
    ensures
        out@ == binary_shape(left@, op@, right@),
{
    let mut out = String::from_str("(");
    out.append(left);
    out.append(")");
    out.append(op);
    out.append("(");
    out.append(right);
    out.append(")");
    out
}

/// Writes a `co_yield`.
pub fn write_yield(value: &str) -> (out: String)
    ensures
        out@ == yield_shape(value@),
{
    let mut out = String::from_str("co_yield ");
    out.append(value);
    out
}

/// Writes the body of an arrow function that is an expression.
pub fn write_expression_body(expr: &str) -> (out: String)
    ensures
        out@ == expression_body(expr@),
{
    let mut out = String::from_str("return ");
    out.append(expr);
    out.append(";");
    out
}

/// Writes a `throw`.
pub fn write_throw(arg: &str) -> (out: String)
    ensures
        out@ == throw_shape(arg@),
{
    let mut out = String::from_str("throw JSValue{");
    out.append(arg);
    out.append("};");
    out
}

/// Writes a `try` with its `catch`.
pub fn write_try(block: &str, binding: &str, handler: &str) -> (out: String)
    ensures
        out@ == try_shape(block@, binding@, handler@),
{
    let mut out = String::from_str("try ");
    out.append(block);
    out.append(" catch (JSValue ");
    out.append(binding);
    out.append(") ");
    out.append(handler);
    out
}

/// Writes the declaration of a variable without a value.
pub fn write_declaration(name: &str) -> (out: String)
    ensures
        out@ == declaration_shape(name@),
{
    let mut out = String::from_str("JSValue ");
    out.append(name);
    out
}

/// Writes the declaration of a function.
pub fn write_fn_decl(name: &str, function: &str) -> (out: String)
    ensures
        out@ == fn_decl_shape(name@, function@),
{
    let mut out = String::from_str("JSValue ");
    out.append(name);
    out.append(" = ");
    out.append(function);
    out.append(";");
    out
}

/// Writes a boolean in the runtime's value type.
pub fn write_bool_value(value: bool) -> (out: String)
    ensures
        out@ == bool_value(value),
{
    if value {
        String::from_str("JSValue{true}")
    } else {
        String::from_str("JSValue{false}")
    }
}

/// Writes the value that stands for a missing accessor.
pub fn write_undefined_value() -> (out: String)
    ensures
        out@ == undefined_value(),
{
    String::from_str("JSValue::undefined()")
}

/// Writes an array literal.
pub fn write_array(elems: &Vec<String>) -> (out: String)
    ensures
        out@ == array_shape(elems.deep_view()),
{
    let mut out = String::from_str("JSValue::new_array({");
    out.append(join(elems, ", ").as_str());
    out.append("})");
    out
}

/// Writes an object literal.
pub fn write_object(entries: &Vec<String>) -> (out: String)
    ensures
        out@ == object_shape(entries.deep_view()),
{
    let mut out = String::from_str("JSValue::new_object({ ");
    out.append(join(entries, ", ").as_str());
    out.append(" })");
    out
}

/// Writes a member access.
pub fn write_member(obj: String, key: &str) -> (out: String)
    ensures
        out@ == member_shape(obj@, key@),
{
    let mut out = obj;
    out.append("[");
    out.append(key);
    out.append("]");
    out
}

/// Writes a call.
pub fn write_call(callee: String, args: &Vec<String>) -> (out: String)
    ensures
        out@ == call_shape(callee@, args.deep_view()),
{
    let mut out = callee;
    out.append("({");
    out.append(join(args, ", ").as_str());
    out.append("})");
    out
}

/// Writes a conditional expression.
pub fn write_conditional(test: &str, cons: &str, alt: &str) -> (out: String)
    ensures
        out@ == conditional_shape(test@, cons@, alt@),
{
    let mut out = write_truth_of(test);
    out.append("?(");
    out.append(cons);
    out.append("):(");
    out.append(alt);
    out.append(")");
    out
}

/// Writes an assignment.
pub fn write_assignment(left: String, right: &str) -> (out: String)
    ensures
        out@ == assignment_shape(left@, right@),
{
    let mut out = left;
    out.append(" = ");
    out.append(write_value_copy(right).as_str());
    out
}

/// Writes an increment or decrement.
pub fn write_update(op: &str, prefix: bool, arg: &str) -> (out: String)
    ensures
        out@ == update_shape(op@, prefix, arg@),
{
    if prefix {
        let mut out = String::from_str(op);
        out.append(write_parenthesized(arg).as_str());
        out
    } else {
        let mut out = write_parenthesized(arg);
        out.append(op);
        out
    }
}

/// Writes a lambda up to the opening brace of its body.
pub fn write_lambda_head(result: &str) -> (out: String)
    ensures
        out@ == lambda_head(result@),
{
    let mut out = String::from_str("[=]");
    out.append("(JSValue thisArg, std::vector<JSValue>& args)");
    out.append(" mutable");
    out.append(result);
    out.append(" { ");
    out
}

/// Writes the line that binds the parameter at `index` to its name.
pub fn write_param_binding(name: &str, index: usize) -> (out: String)
    ensures
        out@ == param_binding(name@, index as nat),
{
    let mut out = String::from_str("JSValue ");
    out.append(name);
    out.append(" = args[");
    out.append(to_decimal(index).as_str());
    out.append("];");
    out
}

/// Writes an arrow function.
pub fn write_arrow(bindings: &str, body: &str) -> (out: String)
    ensures
        out@ == arrow_shape(bindings@, body@),
{
    let nothing = String::new();
    let mut out = String::from_str("JSValue::new_function(");
    out.append(write_lambda_head(nothing.as_str()).as_str());
    out.append(bindings);
    out.append("; ");
    out.append(body);
    out.append("; })");
    out
}

/// Writes a `function`.
pub fn write_function(bindings: &str, body: &str) -> (out: String)
    ensures
        out@ == function_shape(bindings@, body@),
{
    let mut out = String::from_str("JSValue::new_function(");
    out.append(write_lambda_head(" -> JSValue").as_str());
    out.append(bindings);
    out.append("; ");
    out.append(body);
    out.append("; return JSValue::undefined(); })");
    out
}

/// Writes a generator function.
pub fn write_generator(bindings: &str, body: &str) -> (out: String)
    ensures
        out@ == generator_shape(bindings@, body@),
{
    let mut out = String::from_str("JSValue::new_generator_function(");
    out.append(write_lambda_head(" -> JSGeneratorAdapter").as_str());
    out.append(bindings);
    out.append("; ");
    out.append(body);
    out.append("; co_return; })");
    out
}

/// Writes a `return`, as a generator's where `in_generator` is set.
pub fn write_return(in_generator: bool, arg: &str) -> (out: String)
    ensures
        out@ == return_shape(in_generator, arg@),
{
    let mut out = if in_generator {
        String::from_str("co_return ")
    } else {
        String::from_str("return ")
    };
    out.append(arg);
    out.append(";");
    out
}

/// Writes a block.
pub fn write_block(stmts: &Vec<String>) -> (out: String)
    ensures
        out@ == block_shape(stmts.deep_view()),
{
    let mut out = String::from_str("{ ");
    out.append(join(stmts, ";\n").as_str());
    out.append(" }");
    out
}

/// Writes an `if` with both branches.
pub fn write_if(test: &str, cons: &str, alt: &str) -> (out: String)
    ensures
        out@ == if_shape(test@, cons@, alt@),
{
    let mut out = String::from_str("if (");
    out.append(write_truth_of(test).as_str());
    out.append(") { ");
    out.append(cons);
    out.append(" } else { ");
    out.append(alt);
    out.append(" }");
    out
}

/// Writes a `while` loop.
pub fn write_while(test: &str, body: &str) -> (out: String)
    ensures
        out@ == while_shape(test@, body@),
{
    let mut out = String::from_str("while (");
    out.append(write_truth_of(test).as_str());
    out.append(") { ");
    out.append(body);
    out.append(" }");
    out
}

/// Writes a `for` loop.
pub fn write_for(init: &str, test: &str, update: &str, body: &str) -> (out: String)
    ensures
        out@ == for_shape(init@, test@, update@, body@),
{
    let mut out = String::from_str("for (");
    out.append(init);
    out.append("; ");
    out.append(write_truth_of(test).as_str());
    out.append("; ");
    out.append(update);
    out.append(") { ");
    out.append(body);
    out.append(" }");
    out
}

/// Writes a loop over an iterable.
pub fn write_for_of(left: &str, right: &str, body: &str) -> (out: String)
    ensures
        out@ == for_of_shape(left@, right@, body@),
{
    let mut out = String::from_str("for (");
    out.append(left);
    out.append(" : ");
    out.append(right);
    out.append(") { ");
    out.append(body);
    out.append(" }");
    out
}

/// Writes the declaration of a variable that starts with a value.
pub fn write_initialized(name: &str, init: &str) -> (out: String)
    ensures
        out@ == initialized_shape(name@, init@),
{
    let mut out = String::from_str("JSValue ");
    out.append(name);
    out.append(" = ");
    out.append(write_value_copy(init).as_str());
    out
}

/// Writes a statement from what its kind has written.
pub fn write_statement(inner: String) -> (out: String)
    ensures
        out@ == statement_shape(inner@),
{
    let mut out = inner;
    out.append(";");
    out
}

} // verus!
