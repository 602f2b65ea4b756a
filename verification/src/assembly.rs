//! The translation unit around the lowered statements.

use vstd::prelude::*;
use crate::ast::Module;
use crate::generators::module_has_generator;
use crate::globals::{Global, GlobalView};
use crate::includes::{collect_headers, include_paths};
use crate::lowering::{item_texts, Context, Lowered};
use crate::text::{each_followed_by, follow_each};

verus! {

/// The directive that includes one header of the runtime.
pub open spec fn include_line(path: Seq<char>) -> Seq<char> {
    "#include \""@ + path + "\""@
}

pub open spec fn include_lines(paths: Seq<Seq<char>>) -> Seq<Seq<char>> {
    Seq::new(paths.len(), |i: int| include_line(paths[i]))
}

/// The statements that the globals need before any of them is defined, in
/// the order of the globals. A global without one adds nothing.
pub open spec fn init_lines(globals: Seq<GlobalView>) -> Seq<Seq<char>>
    decreases globals.len(),
{
    if globals.len() == 0 {
        Seq::empty()
    } else {
        match globals.last().init {
            Some(init) => init_lines(globals.drop_last()).push(init),
            None => init_lines(globals.drop_last()),
        }
    }
}

/// The definition of a global in `main`.
pub open spec fn definition_line(global: GlobalView) -> Seq<char> {
    "auto "@ + global.name + " = "@ + global.factory + ";"@
}

pub open spec fn definition_lines(globals: Seq<GlobalView>) -> Seq<Seq<char>> {
    Seq::new(globals.len(), |i: int| definition_line(globals[i]))
}

/// The include of the coroutine header, which only generators need.
pub open spec fn coroutine_include(coroutines: bool) -> Seq<char> {
    if coroutines {
        "#include <experimental/coroutine>\n"@
    } else {
        Seq::empty()
    }
}

/// The whole C++ file: the includes for the globals, the runtime's own
/// header, and a `main` that initialises and defines the globals, runs the
/// statements and returns zero.
pub open spec fn translation_unit(
    globals: Seq<GlobalView>,
    coroutines: bool,
    statements: Seq<Seq<char>>,
) -> Seq<char> {
    each_followed_by(include_lines(include_paths(globals)), "\n"@) + coroutine_include(coroutines)
        + "#include \"runtime/js_value.hpp\"\n\nint main() {\n"@ + each_followed_by(
        init_lines(globals),
        "\n"@,
    ) + each_followed_by(definition_lines(globals), "\n"@) + each_followed_by(
        statements,
        ";\n"@,
    ) + "return 0; }\n"@
}

/// The translation of a module by a translator with these globals: the
/// translation unit of its statements, or the first failure among them.
pub open spec fn module_text(globals: Seq<GlobalView>, exceptions: bool, module: Module)
    -> Lowered {
    match item_texts(module.body@, 0, Context { exceptions, in_generator: false }) {
        Err(e) => Err(e),
        Ok(statements) => Ok(
            translation_unit(globals, module_has_generator(module), statements),
        ),
    }
}

fn write_include_lines(paths: &Vec<String>) -> (lines: Vec<String>)
    ensures
        lines.deep_view() == include_lines(paths.deep_view()),
{
    let mut lines: Vec<String> = Vec::new();
    let mut i: usize = 0;
    while i < paths.len()
        invariant
            i <= paths.len(),
            lines.deep_view() =~= include_lines(paths.deep_view()).take(i as int),
        decreases paths.len() - i,
    {
        let ghost done = lines.deep_view();
        let mut line = String::from_str("#include \"");
        line.append(paths[i].as_str());
        line.append("\"");
        lines.push(line);
        proof {
            assert(lines.deep_view() =~= done.push(line@));
        }
        i = i + 1;
    }
    lines
}

fn write_init_lines(globals: &Vec<Global>) -> (lines: Vec<String>)
    ensures
        lines.deep_view() == init_lines(globals.deep_view()),
{
    let mut lines: Vec<String> = Vec::new();
    let mut i: usize = 0;
    proof {
        assert(lines.deep_view() =~= Seq::<Seq<char>>::empty());
    }
    while i < globals.len()
        invariant
            i <= globals.len(),
            lines.deep_view() == init_lines(globals.deep_view().take(i as int)),
        decreases globals.len() - i,
    {
        let ghost done = lines.deep_view();
        proof {
            let views = globals.deep_view();
            assert(views.take(i + 1).drop_last() =~= views.take(i as int));
            assert(views.take(i + 1).last() == globals[i as int]@);
        }
        match &globals[i].init {
            Some(init) => {
                let line = init.clone();
                lines.push(line);
                proof {
                    assert(lines.deep_view() =~= done.push(line@));
                }
            },
            None => {},
        }
        i = i + 1;
    }
    proof {
        assert(globals.deep_view().take(i as int) =~= globals.deep_view());
    }
    lines
}

fn write_definition_lines(globals: &Vec<Global>) -> (lines: Vec<String>)
    ensures
        lines.deep_view() == definition_lines(globals.deep_view()),
{
    let mut lines: Vec<String> = Vec::new();
    let mut i: usize = 0;
    while i < globals.len()
        invariant
            i <= globals.len(),
            lines.deep_view() =~= definition_lines(globals.deep_view()).take(i as int),
        decreases globals.len() - i,
    {
        let ghost done = lines.deep_view();
        let mut line = String::from_str("auto ");
        line.append(globals[i].name.as_str());
        line.append(" = ");
        line.append(globals[i].factory.as_str());
        line.append(";");
        lines.push(line);
        proof {
            assert(lines.deep_view() =~= done.push(line@));
        }
        i = i + 1;
    }
    lines
}

/// Writes the C++ file for lowered statements.
pub fn write_translation_unit(globals: &Vec<Global>, coroutines: bool, statements: &Vec<String>)
    -> (out: String)
    ensures
        out@ == translation_unit(globals.deep_view(), coroutines, statements.deep_view()),
{
    let paths = collect_headers(globals);
    let mut out = follow_each(&write_include_lines(&paths), "\n");
    let coroutine_include = if coroutines {
        String::from_str("#include <experimental/coroutine>\n")
    } else {
        String::new()
    };
    out.append(coroutine_include.as_str());
    out.append("#include \"runtime/js_value.hpp\"\n\nint main() {\n");
    out.append(follow_each(&write_init_lines(globals), "\n").as_str());
    out.append(follow_each(&write_definition_lines(globals), "\n").as_str());
    out.append(follow_each(statements, ";\n").as_str());
    out.append("return 0; }\n");
    out
}

} // verus!
