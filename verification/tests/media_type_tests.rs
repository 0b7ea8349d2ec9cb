//! The classifier returns the documented media type for every supported
//! extension, and `Unknown` for everything else.

use midas::media_type::{media_type_of_specifier, module_kind, requires_transpile, MediaType, ModuleKind};

#[test]
fn classifies_plain_script_extensions() {
    assert_eq!(media_type_of_specifier(b"file:///a/mod.js"), MediaType::JavaScript);
    assert_eq!(media_type_of_specifier(b"file:///a/mod.mjs"), MediaType::Mjs);
    assert_eq!(media_type_of_specifier(b"file:///a/mod.cjs"), MediaType::Cjs);
    assert_eq!(media_type_of_specifier(b"file:///a/mod.jsx"), MediaType::Jsx);
}

#[test]
fn classifies_typed_script_extensions() {
    assert_eq!(media_type_of_specifier(b"file:///a/mod.ts"), MediaType::TypeScript);
    assert_eq!(media_type_of_specifier(b"file:///a/mod.mts"), MediaType::Mts);
    assert_eq!(media_type_of_specifier(b"file:///a/mod.cts"), MediaType::Cts);
    assert_eq!(media_type_of_specifier(b"file:///a/mod.tsx"), MediaType::Tsx);
    assert_eq!(media_type_of_specifier(b"file:///a/mod.d.ts"), MediaType::Dts);
    assert_eq!(media_type_of_specifier(b"file:///a/mod.d.mts"), MediaType::Dmts);
    assert_eq!(media_type_of_specifier(b"file:///a/mod.d.cts"), MediaType::Dcts);
}

#[test]
fn classifies_structured_data_and_unknown() {
    assert_eq!(media_type_of_specifier(b"file:///a/data.json"), MediaType::Json);
    assert_eq!(media_type_of_specifier(b"file:///a/style.css"), MediaType::Unknown);
    assert_eq!(media_type_of_specifier(b"file:///a/readme.txt"), MediaType::Unknown);
    assert_eq!(media_type_of_specifier(b"file:///a/noextension"), MediaType::Unknown);
    assert_eq!(media_type_of_specifier(b""), MediaType::Unknown);
}

#[test]
fn extension_matching_is_case_insensitive() {
    assert_eq!(media_type_of_specifier(b"file:///a/MOD.TS"), MediaType::TypeScript);
    assert_eq!(media_type_of_specifier(b"file:///a/Data.JSON"), MediaType::Json);
    assert_eq!(media_type_of_specifier(b"file:///a/m.Js"), MediaType::JavaScript);
}

#[test]
fn only_the_file_name_decides() {
    // A dot in a directory name does not make an extension.
    assert_eq!(media_type_of_specifier(b"file:///a.ts/mod"), MediaType::Unknown);
    assert_eq!(media_type_of_specifier(b"file:///a.d/x.ts"), MediaType::TypeScript);
}

#[test]
fn transpile_requirements_follow_the_dialect() {
    assert!(!requires_transpile(MediaType::JavaScript));
    assert!(!requires_transpile(MediaType::Mjs));
    assert!(!requires_transpile(MediaType::Cjs));
    assert!(requires_transpile(MediaType::Jsx));
    assert!(requires_transpile(MediaType::TypeScript));
    assert!(requires_transpile(MediaType::Mts));
    assert!(requires_transpile(MediaType::Cts));
    assert!(requires_transpile(MediaType::Dts));
    assert!(requires_transpile(MediaType::Dmts));
    assert!(requires_transpile(MediaType::Dcts));
    assert!(requires_transpile(MediaType::Tsx));
    assert!(!requires_transpile(MediaType::Json));
    assert!(!requires_transpile(MediaType::Unknown));
}

#[test]
fn module_kinds_follow_the_dialect() {
    assert_eq!(module_kind(MediaType::Json), ModuleKind::StructuredData);
    assert_eq!(module_kind(MediaType::JavaScript), ModuleKind::Code);
    assert_eq!(module_kind(MediaType::TypeScript), ModuleKind::Code);
}
