use den::loader::{
    apply_transform, HttpLoader, HttpResponseParts, LoadError, LoadPlan, LoadStep, LoaderChain,
    MmapScriptLoader, NativeLoader, Source, SourceBody, TransformRequest,
};
use den::mime_sniff::sniff_content_type;
use den::paths::path_extension;
use den::resolver::{HttpResolver, NativeResolver, ResolverChain};
use den::transpile::{EasySwcTranspilerError, SyntaxTag};

fn chain(native: &[&str], extensions: &[&str]) -> LoaderChain {
    let mut n = NativeLoader::new();
    for m in native {
        n = n.with_module(m.to_string());
    }
    let mut mm = MmapScriptLoader::new(true, true, false);
    for e in extensions {
        mm = mm.with_extension(e.to_string());
    }
    LoaderChain::new(n, HttpLoader::new(true, true), mm)
}

#[test]
fn native_entry_wins_over_http() {
    let c = chain(&["https://host/mod.js"], &["js"]);
    let plan = c.plan_load("https://host/mod.js");
    assert_eq!(plan, Some(LoadPlan::Native("https://host/mod.js".to_string())));
}

#[test]
fn http_entry_wins_over_mmap() {
    let c = chain(&[], &["js"]);
    let plan = c.plan_load("https://host/mod.js");
    assert_eq!(plan, Some(LoadPlan::FetchHttp("https://host/mod.js".to_string())));
}

#[test]
fn mmap_entry_takes_registered_extensions() {
    let c = chain(&[], &["js", "ts"]);
    let plan = c.plan_load("./scripts/main.ts");
    assert_eq!(plan, Some(LoadPlan::MapFile("./scripts/main.ts".to_string())));
}

#[test]
fn unclaimed_name_has_no_plan() {
    let c = chain(&[], &["js"]);
    assert_eq!(c.plan_load("main.wasm"), None);
    assert_eq!(c.plan_load("no_extension"), None);
}

#[test]
fn mapped_ts_file_asks_for_typescript_transform() {
    let loader = MmapScriptLoader::new(true, true, false)
        .with_extension("js".to_string())
        .with_extension("ts".to_string());
    let bytes = b"let x: number = 1;".to_vec();
    let step = loader.process_mapped("./app.ts", Some(bytes));
    assert_eq!(
        step,
        LoadStep::NeedsTransform(TransformRequest {
            name: "./app.ts".to_string(),
            source: "let x: number = 1;".to_string(),
            syntax: SyntaxTag::Typescript { tsx: false },
            is_module: true,
        })
    );
}

#[test]
fn mapped_file_without_transformer_keeps_bytes() {
    let loader = MmapScriptLoader::new(false, false, false).with_extension("js".to_string());
    let bytes = b"console.log(1)".to_vec();
    let step = loader.process_mapped("dir/x.js", Some(bytes.clone()));
    assert_eq!(
        step,
        LoadStep::Done(Source {
            name: "dir/x.js".to_string(),
            body: SourceBody::Bytes(bytes),
            syntax: SyntaxTag::Es { jsx: false },
        })
    );
}

#[test]
fn mapped_file_with_unregistered_extension_is_unreadable() {
    let loader = MmapScriptLoader::new(true, true, false).with_extension("js".to_string());
    let step = loader.process_mapped("x.wasm", Some(vec![0, 1]));
    assert_eq!(step, LoadStep::Failed(LoadError::Unreadable));
}

#[test]
fn unopenable_file_is_unreadable() {
    let loader = MmapScriptLoader::new(true, true, false).with_extension("js".to_string());
    let step = loader.process_mapped("x.js", None);
    assert_eq!(step, LoadStep::Failed(LoadError::Unreadable));
}

#[test]
fn undecodable_file_is_unreadable() {
    let loader = MmapScriptLoader::new(true, true, false).with_extension("js".to_string());
    let step = loader.process_mapped("x.js", Some(vec![0xff, 0xfe]));
    assert_eq!(step, LoadStep::Failed(LoadError::Unreadable));
}

#[test]
fn http_response_with_script_type_transforms() {
    let loader = HttpLoader::new(true, true);
    let parts = HttpResponseParts {
        content_type: Some("text/javascript; charset=utf-8".to_string()),
        body: Some("1+1".to_string()),
    };
    let step = loader.process_response("https://host/m.js", Ok(parts));
    assert_eq!(
        step,
        LoadStep::NeedsTransform(TransformRequest {
            name: "https://host/m.js".to_string(),
            source: "1+1".to_string(),
            syntax: SyntaxTag::Es { jsx: false },
            is_module: true,
        })
    );
}

#[test]
fn http_response_type_is_case_insensitive() {
    let loader = HttpLoader::new(true, true);
    let parts = HttpResponseParts {
        content_type: Some("Application/TypeScript".to_string()),
        body: Some("let x = 1".to_string()),
    };
    let step = loader.process_response("https://host/m.ts", Ok(parts));
    assert_eq!(
        step,
        LoadStep::NeedsTransform(TransformRequest {
            name: "https://host/m.ts".to_string(),
            source: "let x = 1".to_string(),
            syntax: SyntaxTag::Typescript { tsx: false },
            is_module: true,
        })
    );
}

#[test]
fn http_response_with_wrong_type_is_rejected() {
    let loader = HttpLoader::new(true, true);
    let parts = HttpResponseParts {
        content_type: Some("text/html".to_string()),
        body: Some("<html>".to_string()),
    };
    let step = loader.process_response("https://host/m.js", Ok(parts));
    assert_eq!(step, LoadStep::Failed(LoadError::UnrecognizedContent));
}

#[test]
fn http_response_without_type_is_rejected() {
    let loader = HttpLoader::new(true, true);
    let parts = HttpResponseParts { content_type: None, body: Some("1".to_string()) };
    let step = loader.process_response("https://host/m.js", Ok(parts));
    assert_eq!(step, LoadStep::Failed(LoadError::UnrecognizedContent));
}

#[test]
fn http_response_without_sniffing_defaults_to_script() {
    let loader = HttpLoader { check_mime: false, typescript: true, transpile: false };
    let parts = HttpResponseParts { content_type: None, body: Some("2".to_string()) };
    let step = loader.process_response("https://host/m.js", Ok(parts));
    assert_eq!(
        step,
        LoadStep::Done(Source {
            name: "https://host/m.js".to_string(),
            body: SourceBody::Text("2".to_string()),
            syntax: SyntaxTag::Es { jsx: false },
        })
    );
}

#[test]
fn transport_failure_is_a_network_error() {
    let loader = HttpLoader::new(true, true);
    let step = loader.process_response("https://host/m.js", Err("connection refused".to_string()));
    assert_eq!(step, LoadStep::Failed(LoadError::Network("connection refused".to_string())));
}

#[test]
fn unreadable_body_is_a_network_error() {
    let loader = HttpLoader::new(true, true);
    let parts = HttpResponseParts {
        content_type: Some("text/javascript".to_string()),
        body: None,
    };
    let step = loader.process_response("https://host/m.js", Ok(parts));
    assert_eq!(
        step,
        LoadStep::Failed(LoadError::Network("cannot load as program text".to_string()))
    );
}

#[test]
fn transform_outcome_becomes_source_or_error() {
    let req = TransformRequest {
        name: "./a.ts".to_string(),
        source: "let x: number = 1".to_string(),
        syntax: SyntaxTag::Typescript { tsx: false },
        is_module: true,
    };
    let ok = apply_transform(req.clone(), Ok("var x = 1;".to_string()));
    assert_eq!(
        ok,
        Ok(Source {
            name: "./a.ts".to_string(),
            body: SourceBody::Text("var x = 1;".to_string()),
            syntax: SyntaxTag::Es { jsx: false },
        })
    );
    let failed = apply_transform(req, Err(EasySwcTranspilerError::SwcParse("bad".to_string())));
    assert_eq!(
        failed,
        Err(LoadError::TransformFailed(EasySwcTranspilerError::SwcParse("bad".to_string())))
    );
}

#[test]
fn a_resolved_name_flows_through_the_loader() {
    let resolver = ResolverChain::new(NativeResolver::new(), HttpResolver::new());
    let name = resolver
        .resolve("https://host/dir/main.js", "./sibling.js")
        .unwrap();
    assert_eq!(name, "https://host/dir/sibling.js");

    let c = chain(&[], &["js"]);
    assert_eq!(c.plan_load(&name), Some(LoadPlan::FetchHttp(name.clone())));

    let parts = HttpResponseParts {
        content_type: Some("text/javascript".to_string()),
        body: Some("export const hello = \"world\"".to_string()),
    };
    let step = c.http.process_response(&name, Ok(parts));
    assert_eq!(
        step,
        LoadStep::NeedsTransform(TransformRequest {
            name: name.clone(),
            source: "export const hello = \"world\"".to_string(),
            syntax: SyntaxTag::Es { jsx: false },
            is_module: true,
        })
    );
}

#[test]
fn sniffing_maps_types_to_extensions() {
    assert_eq!(sniff_content_type("text/javascript", true), Some("js"));
    assert_eq!(sniff_content_type("application/javascript", false), Some("js"));
    assert_eq!(sniff_content_type("application/typescript", true), Some("ts"));
    assert_eq!(sniff_content_type("application/typescript", false), None);
    assert_eq!(sniff_content_type("image/png", true), None);
    assert_eq!(sniff_content_type("not a mime", true), None);
}

#[test]
fn extensions_come_from_the_last_component() {
    assert_eq!(path_extension("a/b/c.ts"), Some("ts".to_string()));
    assert_eq!(path_extension("a.b/c"), None);
    assert_eq!(path_extension(".hidden"), None);
    assert_eq!(path_extension("archive.tar.gz"), Some("gz".to_string()));
    assert_eq!(path_extension("trailing."), Some("".to_string()));
    assert_eq!(path_extension("plain"), None);
}
