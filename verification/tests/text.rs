use jsxx::globals::Global;
use jsxx::includes::{collect_headers, insert_text, text_less};
use jsxx::text::{follow_each, join, to_decimal};

fn strings(texts: &[&str]) -> Vec<String> {
    texts.iter().map(|text| text.to_string()).collect()
}

#[test]
fn join_puts_the_separator_between() {
    assert_eq!(join(&strings(&[]), ", "), "");
    assert_eq!(join(&strings(&["a"]), ", "), "a");
    assert_eq!(join(&strings(&["a", "b", "c"]), ", "), "a, b, c");
    assert_eq!(join(&strings(&["", ""]), ";"), ";");
    assert_eq!(join(&strings(&["a", "b"]), ""), "ab");
}

#[test]
fn follow_each_puts_the_end_behind_each() {
    assert_eq!(follow_each(&strings(&[]), "\n"), "");
    assert_eq!(follow_each(&strings(&["a"]), "\n"), "a\n");
    assert_eq!(follow_each(&strings(&["a", "", "c"]), ";\n"), "a;\n;\nc;\n");
}

#[test]
fn decimal_notation() {
    for (number, text) in [
        (0, "0"),
        (7, "7"),
        (9, "9"),
        (10, "10"),
        (11, "11"),
        (99, "99"),
        (100, "100"),
        (1234567890, "1234567890"),
    ] {
        assert_eq!(to_decimal(number), text);
    }
    assert_eq!(to_decimal(usize::MAX), usize::MAX.to_string());
}

#[test]
fn texts_are_ordered_as_str_is() {
    let texts = ["", "a", "ab", "abc", "b", "B", "é", "z", "日本", "a/b.hpp", "a.hpp", "\u{10348}"];
    for a in texts {
        for b in texts {
            assert_eq!(text_less(a, b), a < b, "{:?} < {:?}", a, b);
        }
    }
}

#[test]
fn insertion_keeps_order_and_skips_what_is_there() {
    let mut list: Vec<String> = Vec::new();
    for text in ["m", "a", "z", "m", "b", "a", "zz", ""] {
        insert_text(&mut list, &text.to_string());
    }
    assert_eq!(list, strings(&["", "a", "b", "m", "z", "zz"]));
}

fn global(name: &str, headers: Option<&[&str]>) -> Global {
    Global {
        name: name.to_string(),
        additional_headers: headers.map(strings),
        init: None,
        factory: "make()".to_string(),
    }
}

#[test]
fn headers_are_collected_as_a_sorted_set() {
    assert_eq!(collect_headers(&vec![]), strings(&[]));
    let globals = vec![
        global("a", Some(&["z.hpp", "b.hpp"])),
        global("b", None),
        global("c", Some(&[])),
        global("d", Some(&["b.hpp", "a.hpp", "z.hpp", "a.hpp"])),
    ];
    assert_eq!(collect_headers(&globals), strings(&["a.hpp", "b.hpp", "z.hpp"]));
}
