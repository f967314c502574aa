use den::console::{Console, FormatArgs, Formatter, JsVal};

fn fmt(v: &JsVal) -> String {
    Formatter::default().format(v)
}

#[test]
fn primitives_render_as_their_text() {
    assert_eq!(fmt(&JsVal::Null), "null");
    assert_eq!(fmt(&JsVal::Undefined), "undefined");
    assert_eq!(fmt(&JsVal::Bool(true)), "true");
    assert_eq!(fmt(&JsVal::Bool(false)), "false");
    assert_eq!(fmt(&JsVal::Str("hello world".to_string())), "hello world");
    assert_eq!(fmt(&JsVal::Float("1.5".to_string())), "1.5");
}

#[test]
fn integers_render_in_decimal() {
    assert_eq!(fmt(&JsVal::Int(0)), "0");
    assert_eq!(fmt(&JsVal::Int(42)), "42");
    assert_eq!(fmt(&JsVal::Int(-7)), "-7");
    assert_eq!(fmt(&JsVal::Int(i32::MIN)), "-2147483648");
    assert_eq!(fmt(&JsVal::Int(i32::MAX)), "2147483647");
}

#[test]
fn big_integers_carry_their_suffix() {
    assert_eq!(fmt(&JsVal::BigInt(123)), "123n");
    assert_eq!(fmt(&JsVal::BigInt(i64::MIN)), "-9223372036854775808n");
}

#[test]
fn symbols_and_functions_render_by_name() {
    assert_eq!(fmt(&JsVal::Symbol(None)), "Symbol()");
    assert_eq!(fmt(&JsVal::Symbol(Some("tag".to_string()))), "Symbol(tag)");
    assert_eq!(fmt(&JsVal::Function(None)), "[Function (anonymous)]");
    assert_eq!(fmt(&JsVal::Function(Some("go".to_string()))), "[Function: go]");
}

#[test]
fn arrays_render_bracketed_and_separated() {
    let v = JsVal::Array(vec![JsVal::Int(1), JsVal::Int(2), JsVal::Int(3)]);
    assert_eq!(fmt(&v), "[ 1, 2, 3 ]");
    assert_eq!(fmt(&JsVal::Array(vec![])), "[  ]");
}

#[test]
fn objects_render_their_properties() {
    let v = JsVal::Object(vec![
        (JsVal::Str("a".to_string()), JsVal::Int(1)),
        (JsVal::Str("b".to_string()), JsVal::Str("x".to_string())),
    ]);
    assert_eq!(fmt(&v), "{ a: 1b: x }");
}

#[test]
fn array_keys_render_in_key_mode() {
    let v = JsVal::Object(vec![(
        JsVal::Array(vec![JsVal::Int(1), JsVal::Int(2)]),
        JsVal::Int(3),
    )]);
    assert_eq!(fmt(&v), "{ 1,2: 3 }");
}

#[test]
fn object_keys_render_reduced() {
    let v = JsVal::Object(vec![(
        JsVal::Object(vec![(JsVal::Str("x".to_string()), JsVal::Int(1))]),
        JsVal::Int(9),
    )]);
    assert_eq!(fmt(&v), "{ [object Object]: 9 }");
}

#[test]
fn deep_values_are_cut_off() {
    let deep = JsVal::Array(vec![JsVal::Array(vec![JsVal::Array(vec![JsVal::Int(1)])])]);
    let f = Formatter::builder().max_depth(1).build();
    assert_eq!(f.format(&deep), "[ [ [Array] ] ]");
    let deep_obj = JsVal::Array(vec![JsVal::Array(vec![JsVal::Object(vec![])])]);
    assert_eq!(f.format(&deep_obj), "[ [ [Object] ] ]");
}

#[test]
fn builder_defaults_to_depth_ten() {
    let mut v = JsVal::Int(1);
    for _ in 0..12 {
        v = JsVal::Array(vec![v]);
    }
    let rendered = Formatter::builder().build().format(&v);
    assert!(rendered.contains("[Array]"));
    assert!(!rendered.contains('1'));
}

#[test]
fn format_args_track_key_mode() {
    let args = FormatArgs::default();
    assert!(!args.is_key());
    assert!(args.with_key().is_key());
}

#[test]
fn console_print_joins_values() {
    let console = Console::new("console", Formatter::builder().max_depth(3).build());
    let message = console.print(&vec![
        JsVal::Str("ready".to_string()),
        JsVal::Int(5),
        JsVal::Array(vec![JsVal::Bool(false)]),
    ]);
    assert_eq!(message, "ready, 5, [ false ]");
    assert_eq!(console.print(&vec![]), "");
}
