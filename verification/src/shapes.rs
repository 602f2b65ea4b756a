//! The shapes of the generated C++ text.
//!
//! Each function says what is written for one construct once its parts have
//! been lowered. They are plain text templates: nothing here looks at the
//! syntax tree.

use vstd::prelude::*;
use crate::text::{decimal, joined};

verus! {

/// A string in the runtime's value type: `JSValue{"text"}`.
pub open spec fn string_value(text: Seq<char>) -> Seq<char> {
    "JSValue{\""@ + text + "\"}"@
}

/// A number in the runtime's value type. Every number is a double.
pub open spec fn number_value(value: Seq<char>) -> Seq<char> {
    "JSValue{static_cast<double>("@ + value + ")}"@
}

/// A boolean in the runtime's value type.
pub open spec fn bool_value(value: bool) -> Seq<char> {
    if value {
        "JSValue{true}"@
    } else {
        "JSValue{false}"@
    }
}

/// A bare C++ string literal, as used for a string key.
pub open spec fn quoted(text: Seq<char>) -> Seq<char> {
    "\""@ + text + "\""@
}

/// The copy of the value that an expression denotes: primitives are copied,
/// objects stay shared.
pub open spec fn value_copy(expr: Seq<char>) -> Seq<char> {
    "*("@ + expr + ").value"@
}

/// `(inner)`.
pub open spec fn parenthesized(inner: Seq<char>) -> Seq<char> {
    "("@ + inner + ")"@
}

/// A test as C++ takes it: `(test).coerce_to_bool()`.
pub open spec fn truth_of(test: Seq<char>) -> Seq<char> {
    "("@ + test + ").coerce_to_bool()"@
}

pub open spec fn array_shape(elems: Seq<Seq<char>>) -> Seq<char> {
    "JSValue::new_array({"@ + joined(elems, ", "@) + "})"@
}

pub open spec fn object_shape(entries: Seq<Seq<char>>) -> Seq<char> {
    "JSValue::new_object({ "@ + joined(entries, ", "@) + " })"@
}

/// One entry of an object literal: `{key, binding}`.
pub open spec fn entry_shape(key: Seq<char>, binding: Seq<char>) -> Seq<char> {
    "{"@ + key + ", "@ + binding + "}"@
}

/// The binding of a property that has accessors in place of a value.
pub open spec fn accessors_shape(getter: Seq<char>, setter: Seq<char>) -> Seq<char> {
    "JSValueBinding::with_getter_setter("@ + getter + ", "@ + setter + ")"@
}

/// The value that stands for a missing accessor, and that a function returns
/// when it ends without a `return`.
pub open spec fn undefined_value() -> Seq<char> {
    "JSValue::undefined()"@
}

pub open spec fn member_shape(obj: Seq<char>, key: Seq<char>) -> Seq<char> {
    obj + "["@ + key + "]"@
}

/// A call. The arguments are handed over as one list of copied values.
pub open spec fn call_shape(callee: Seq<char>, args: Seq<Seq<char>>) -> Seq<char> {
    callee + "({"@ + joined(args, ", "@) + "})"@
}

pub open spec fn binary_shape(left: Seq<char>, op: Seq<char>, right: Seq<char>) -> Seq<char> {
    "("@ + left + ")"@ + op + "("@ + right + ")"@
}

pub open spec fn conditional_shape(test: Seq<char>, cons: Seq<char>, alt: Seq<char>) -> Seq<
    char,
> {
    truth_of(test) + "?("@ + cons + "):("@ + alt + ")"@
}

pub open spec fn assignment_shape(left: Seq<char>, right: Seq<char>) -> Seq<char> {
    left + " = "@ + value_copy(right)
}

pub open spec fn update_shape(op: Seq<char>, prefix: bool, arg: Seq<char>) -> Seq<char> {
    if prefix {
        op + parenthesized(arg)
    } else {
        parenthesized(arg) + op
    }
}

pub open spec fn yield_shape(value: Seq<char>) -> Seq<char> {
    "co_yield "@ + value
}

/// The parameter list of every generated lambda.
pub open spec fn lambda_signature() -> Seq<char> {
    "(JSValue thisArg, std::vector<JSValue>& args)"@
}

/// A lambda up to the opening brace of its body. `result` is empty or names
/// the return type, as in ` -> JSValue`.
pub open spec fn lambda_head(result: Seq<char>) -> Seq<char> {
    "[=]"@ + lambda_signature() + " mutable"@ + result + " { "@
}

/// Whether a text holds a lambda with the parameter list of
/// [`lambda_signature`].
pub open spec fn has_lambda_signature(text: Seq<char>) -> bool {
    exists|before: Seq<char>, after: Seq<char>|
        text == before + "[=]"@ + lambda_signature() + " mutable"@ + after
}

/// The line that binds the parameter at `index` to its name.
pub open spec fn param_binding(name: Seq<char>, index: nat) -> Seq<char> {
    "JSValue "@ + name + " = args["@ + decimal(index) + "];"@
}

/// The body of an arrow function that is written as an expression.
pub open spec fn expression_body(expr: Seq<char>) -> Seq<char> {
    "return "@ + expr + ";"@
}

/// An arrow function: the body's own `return` gives the result.
pub open spec fn arrow_shape(bindings: Seq<char>, body: Seq<char>) -> Seq<char> {
    "JSValue::new_function("@ + lambda_head(Seq::empty()) + bindings + "; "@ + body + "; })"@
}

/// A `function`: it returns `undefined` where the body ends without a
/// `return`.
pub open spec fn function_shape(bindings: Seq<char>, body: Seq<char>) -> Seq<char> {
    "JSValue::new_function("@ + lambda_head(" -> JSValue"@) + bindings + "; "@ + body
        + "; return JSValue::undefined(); })"@
}

/// A generator function: a coroutine that the runtime adapts to the iterator
/// protocol.
pub open spec fn generator_shape(bindings: Seq<char>, body: Seq<char>) -> Seq<char> {
    "JSValue::new_generator_function("@ + lambda_head(" -> JSGeneratorAdapter"@) + bindings
        + "; "@ + body + "; co_return; })"@
}

/// `return arg;`, or `co_return arg;` inside a generator. `arg` is empty for
/// a bare `return`.
pub open spec fn return_shape(in_generator: bool, arg: Seq<char>) -> Seq<char> {
    (if in_generator {
        "co_return "@
    } else {
        "return "@
    }) + arg + ";"@
}

pub open spec fn block_shape(stmts: Seq<Seq<char>>) -> Seq<char> {
    "{ "@ + joined(stmts, ";\n"@) + " }"@
}

pub open spec fn if_shape(test: Seq<char>, cons: Seq<char>, alt: Seq<char>) -> Seq<char> {
    "if ("@ + truth_of(test) + ") { "@ + cons + " } else { "@ + alt + " }"@
}

pub open spec fn while_shape(test: Seq<char>, body: Seq<char>) -> Seq<char> {
    "while ("@ + truth_of(test) + ") { "@ + body + " }"@
}

pub open spec fn for_shape(init: Seq<char>, test: Seq<char>, update: Seq<char>, body: Seq<char>)
    -> Seq<char> {
    "for ("@ + init + "; "@ + truth_of(test) + "; "@ + update + ") { "@ + body + " }"@
}

pub open spec fn for_of_shape(left: Seq<char>, right: Seq<char>, body: Seq<char>) -> Seq<char> {
    "for ("@ + left + " : "@ + right + ") { "@ + body + " }"@
}

/// What is thrown is always a `JSValue`, whatever the expression's C++ type.
pub open spec fn throw_shape(arg: Seq<char>) -> Seq<char> {
    "throw JSValue{"@ + arg + "};"@
}

pub open spec fn try_shape(block: Seq<char>, binding: Seq<char>, handler: Seq<char>) -> Seq<char> {
    "try "@ + block + " catch (JSValue "@ + binding + ") "@ + handler
}

/// The declaration of a variable without a value.
pub open spec fn declaration_shape(name: Seq<char>) -> Seq<char> {
    "JSValue "@ + name
}

/// The declaration of a variable that starts as a copy of `init`.
pub open spec fn initialized_shape(name: Seq<char>, init: Seq<char>) -> Seq<char> {
    "JSValue "@ + name + " = "@ + value_copy(init)
}

pub open spec fn fn_decl_shape(name: Seq<char>, function: Seq<char>) -> Seq<char> {
    "JSValue "@ + name + " = "@ + function + ";"@
}

/// A statement: what its kind writes, and a semicolon.
pub open spec fn statement_shape(inner: Seq<char>) -> Seq<char> {
    inner + ";"@
}

} // verus!
