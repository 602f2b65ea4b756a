use jsxx::globals::io::io_global;
use jsxx::globals::json::json_global;
use jsxx::globals::symbol::symbol_global;
use jsxx::globals::wasi::WASIGlobal;
use jsxx::globals::Global;

fn fields(global: &Global) -> (&str, Option<Vec<&str>>, Option<&str>, &str) {
    (
        global.name.as_str(),
        global
            .additional_headers
            .as_ref()
            .map(|headers| headers.iter().map(|header| header.as_str()).collect()),
        global.init.as_deref(),
        global.factory.as_str(),
    )
}

#[test]
fn io() {
    assert_eq!(
        fields(&io_global()),
        ("IO", Some(vec!["runtime/global_io.hpp"]), None, "create_IO_global()")
    );
}

#[test]
fn json() {
    assert_eq!(
        fields(&json_global()),
        ("JSON", Some(vec!["runtime/global_json.hpp"]), None, "create_JSON_global()")
    );
}

#[test]
fn symbol() {
    assert_eq!(
        fields(&symbol_global()),
        ("Symbol", Some(vec!["runtime/global_symbol.hpp"]), None, "create_symbol_global()")
    );
}

#[test]
fn wasi() {
    assert_eq!(
        fields(&WASIGlobal()),
        ("WASI", Some(vec!["runtime/global_wasi.hpp"]), None, "create_WASI_global()")
    );
}
