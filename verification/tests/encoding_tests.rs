use den::encoding::{atob, btoa, AtobError};
use den::transpile::{
    get_best_transpiling, infer_transpile_syntax_by_extension, SyntaxTag,
};
use den::wasm::{GlobalDescriptor, TableDescriptor, TableElementKind};

#[test]
fn btoa_encodes_standard_base64() {
    assert_eq!(btoa("hello"), "aGVsbG8=");
    assert_eq!(btoa(""), "");
    assert_eq!(btoa("ab"), "YWI=");
    assert_eq!(btoa("abc"), "YWJj");
}

#[test]
fn atob_decodes_standard_base64() {
    assert_eq!(atob("aGVsbG8="), Ok("hello".to_string()));
    assert_eq!(atob(""), Ok("".to_string()));
}

#[test]
fn atob_rejects_what_is_not_base64() {
    assert_eq!(atob("not base64!"), Err(AtobError::InvalidBase64));
}

#[test]
fn atob_rejects_bytes_that_are_not_text() {
    // "/w==" decodes to the single byte 0xFF, which is not UTF-8.
    assert_eq!(atob("/w=="), Err(AtobError::InvalidUtf8));
}

#[test]
fn atob_undoes_btoa() {
    for s in ["", "a", "ab", "abc", "abcd", "den, one word less than Deno"] {
        assert_eq!(atob(&btoa(s)), Ok(s.to_string()));
    }
}

#[test]
fn syntax_is_inferred_from_extensions() {
    assert_eq!(
        infer_transpile_syntax_by_extension("js", true, true),
        Some(SyntaxTag::Es { jsx: false })
    );
    assert_eq!(
        infer_transpile_syntax_by_extension("mjs", false, false),
        Some(SyntaxTag::Es { jsx: false })
    );
    assert_eq!(
        infer_transpile_syntax_by_extension("jsx", false, true),
        Some(SyntaxTag::Es { jsx: true })
    );
    assert_eq!(infer_transpile_syntax_by_extension("jsx", true, false), None);
    assert_eq!(
        infer_transpile_syntax_by_extension("ts", true, false),
        Some(SyntaxTag::Typescript { tsx: false })
    );
    assert_eq!(infer_transpile_syntax_by_extension("ts", false, true), None);
    assert_eq!(
        infer_transpile_syntax_by_extension("tsx", true, true),
        Some(SyntaxTag::Typescript { tsx: true })
    );
    assert_eq!(infer_transpile_syntax_by_extension("tsx", true, false), None);
    assert_eq!(infer_transpile_syntax_by_extension("wasm", true, true), None);
}

#[test]
fn the_best_transpiling_follows_the_switches() {
    assert_eq!(get_best_transpiling(false, false), "js");
    assert_eq!(get_best_transpiling(false, true), "jsx");
    assert_eq!(get_best_transpiling(true, false), "ts");
    assert_eq!(get_best_transpiling(true, true), "tsx");
}

#[test]
fn global_descriptors_accept_only_value_types() {
    for ty in ["i32", "i64", "f32", "f64", "v128", "externref", "anyref"] {
        let d = GlobalDescriptor::new(ty.to_string(), Some(true));
        assert!(d.is_ok());
        assert_eq!(d.unwrap().value, ty);
    }
    assert!(GlobalDescriptor::new("i16".to_string(), None).is_err());
}

#[test]
fn table_descriptors_accept_two_element_kinds() {
    let externref = TableDescriptor {
        initial: 1,
        maximum: Some(4),
        element: "externref".to_string(),
    };
    assert_eq!(externref.element_kind(), Ok(TableElementKind::ExternRef));
    let anyfunc = TableDescriptor { initial: 0, maximum: None, element: "anyfunc".to_string() };
    assert_eq!(anyfunc.element_kind(), Ok(TableElementKind::FuncRef));
    let bad = TableDescriptor { initial: 0, maximum: None, element: "v128".to_string() };
    assert_eq!(bad.element_kind(), Err(()));
}
