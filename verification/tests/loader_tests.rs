//! The loader: scheme and extension checks, pass-through of plain payloads,
//! transpilation of typed dialects, and the source-map store.

use midas::error::ErrorKind;
use midas::loader::TypescriptModuleLoader;
use midas::media_type::ModuleKind;

const TS_SOURCE: &[u8] = b"const port: number = 8080;\nexport default port;\n";

#[test]
fn json_entry_is_loaded_as_structured_data_unchanged() {
    let mut loader = TypescriptModuleLoader::new();
    let content = b"{\"a\":1}".to_vec();
    let record = loader.load(b"file:///app/config.json", Ok(&content)).unwrap();
    assert_eq!(record.kind, ModuleKind::StructuredData);
    assert_eq!(record.code, content);
    assert_eq!(record.specifier, b"file:///app/config.json".to_vec());
    assert!(record.source_map.is_none());
    assert!(loader.get_source_map(b"file:///app/config.json").is_none());
}

#[test]
fn plain_script_passes_through_without_a_source_map() {
    let mut loader = TypescriptModuleLoader::new();
    let content = b"export default 1;\n".to_vec();
    let record = loader.load(b"file:///app/mod.js", Ok(&content)).unwrap();
    assert_eq!(record.kind, ModuleKind::Code);
    assert_eq!(record.code, content);
    assert!(record.source_map.is_none());
    assert!(loader.get_source_map(b"file:///app/mod.js").is_none());
}

#[test]
fn typed_script_dependency_records_a_source_map_under_its_specifier() {
    let mut loader = TypescriptModuleLoader::new();
    let typed = TS_SOURCE.to_vec();
    let record = loader.load(b"file:///app/dep.ts", Ok(&typed)).unwrap();
    assert_eq!(record.kind, ModuleKind::Code);
    // The typed dialect was lowered: the annotation is gone from the code.
    assert_ne!(record.code, typed);
    let code_text = String::from_utf8(record.code.clone()).unwrap();
    assert!(!code_text.contains(": number"));
    assert!(code_text.contains("8080"));
    // The map landed in the store, keyed by the dependency's specifier.
    let map = loader.get_source_map(b"file:///app/dep.ts").unwrap();
    assert_eq!(record.source_map.as_ref().unwrap(), map);
    // A plain-script dependency leaves no entry.
    let plain = b"export default 2;\n".to_vec();
    loader.load(b"file:///app/plain.js", Ok(&plain)).unwrap();
    assert!(loader.get_source_map(b"file:///app/plain.js").is_none());
}

#[test]
fn reloading_a_specifier_overwrites_its_source_map() {
    let mut loader = TypescriptModuleLoader::new();
    let first = b"export default 1 as number;\n".to_vec();
    let second = b"const x: string = \"y\";\nexport default x;\n".to_vec();
    loader.load(b"file:///app/dep.ts", Ok(&first)).unwrap();
    let map_first = loader.get_source_map(b"file:///app/dep.ts").unwrap().clone();
    loader.load(b"file:///app/dep.ts", Ok(&second)).unwrap();
    let map_second = loader.get_source_map(b"file:///app/dep.ts").unwrap().clone();
    assert_ne!(map_first, map_second);
}

#[test]
fn non_file_specifier_is_rejected_before_reading() {
    let mut loader = TypescriptModuleLoader::new();
    let io = b"not read".to_vec();
    let e = loader.load(b"https://example.com/mod.ts", Err(&io)).unwrap_err();
    assert_eq!(e.error_kind(), ErrorKind::Load);
    let messages = e.messages();
    assert_eq!(messages[0], b"only local file modules are supported".to_vec());
    assert_eq!(messages[1], b"https://example.com/mod.ts".to_vec());
}

#[test]
fn unknown_extension_fails_the_load() {
    let mut loader = TypescriptModuleLoader::new();
    let content = b"whatever".to_vec();
    let e = loader.load(b"file:///app/mod.wasm", Ok(&content)).unwrap_err();
    assert_eq!(e.error_kind(), ErrorKind::Load);
    assert_eq!(e.messages()[0], b"unsupported extension".to_vec());
}

#[test]
fn missing_file_is_a_load_error_naming_the_path() {
    let mut loader = TypescriptModuleLoader::new();
    let io = b"No such file or directory (os error 2)".to_vec();
    let e = loader.load(b"file:///missing/dep.ts", Err(&io)).unwrap_err();
    assert_eq!(e.error_kind(), ErrorKind::Load);
    let messages = e.messages();
    assert_eq!(messages[0], b"failed to read module file".to_vec());
    assert_eq!(messages[1], b"/missing/dep.ts".to_vec());
    // The host's I/O error stands as the root cause of the chain.
    assert_eq!(messages[2], io);
}

#[test]
fn malformed_typed_script_is_a_transpile_error() {
    let mut loader = TypescriptModuleLoader::new();
    let content = b"const : = ;;;".to_vec();
    let e = loader.load(b"file:///app/broken.ts", Ok(&content)).unwrap_err();
    assert_eq!(e.error_kind(), ErrorKind::Transpile);
    assert!(!e.messages().is_empty());
    assert!(loader.get_source_map(b"file:///app/broken.ts").is_none());
}

#[test]
fn loader_resolve_delegates_to_specifier_resolution() {
    let loader = TypescriptModuleLoader::new();
    let r = loader.resolve(b"./dep.ts", b"file:///app/main.ts").unwrap();
    assert_eq!(r, b"file:///app/dep.ts".to_vec());
    let e = loader.resolve(b"bare", b"file:///app/main.ts").unwrap_err();
    assert_eq!(e.error_kind(), ErrorKind::Resolution);
}
