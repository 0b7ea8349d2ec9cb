//! Specifier resolution: absolute `file:` URLs are brought to normal form,
//! other absolute URLs pass through, relative paths are resolved against a
//! `file:` referrer with dot-segment removal, bare specifiers are rejected.

use midas::error::ErrorKind;
use midas::specifier::{file_url_of_path, resolve};

#[test]
fn resolves_sibling_import() {
    let r = resolve(b"./dep.ts", b"file:///app/main.ts").unwrap();
    assert_eq!(r, b"file:///app/dep.ts".to_vec());
}

#[test]
fn resolves_parent_import() {
    let r = resolve(b"../lib/dep.ts", b"file:///app/sub/main.ts").unwrap();
    assert_eq!(r, b"file:///app/lib/dep.ts".to_vec());
}

#[test]
fn resolves_nested_dot_segments() {
    let r = resolve(b"./a/./b/../c.js", b"file:///root/main.js").unwrap();
    assert_eq!(r, b"file:///root/a/c.js".to_vec());
}

#[test]
fn dot_dot_does_not_rise_above_the_root() {
    let r = resolve(b"../../../x.ts", b"file:///a/main.ts").unwrap();
    assert_eq!(r, b"file:///x.ts".to_vec());
}

#[test]
fn resolves_rooted_path_against_referrer_scheme() {
    let r = resolve(b"/lib/x.ts", b"file:///app/main.ts").unwrap();
    assert_eq!(r, b"file:///lib/x.ts".to_vec());
}

#[test]
fn absolute_file_url_is_brought_to_normal_form() {
    let r = resolve(b"file:///other/mod.ts", b"file:///app/main.ts").unwrap();
    assert_eq!(r, b"file:///other/mod.ts".to_vec());
    let r = resolve(b"file:///a/../b/./mod.ts", b"file:///app/main.ts").unwrap();
    assert_eq!(r, b"file:///b/mod.ts".to_vec());
}

#[test]
fn other_absolute_urls_pass_through() {
    let r = resolve(b"https://example.com/a/../mod.ts", b"file:///app/main.ts").unwrap();
    assert_eq!(r, b"https://example.com/a/../mod.ts".to_vec());
}

#[test]
fn a_host_path_becomes_a_local_file_specifier() {
    let s = file_url_of_path(b"/app/main.ts");
    assert_eq!(s, b"file:///app/main.ts".to_vec());
}

#[test]
fn bare_specifier_is_a_resolution_error() {
    let e = resolve(b"lodash", b"file:///app/main.ts").unwrap_err();
    assert_eq!(e.error_kind(), ErrorKind::Resolution);
    let messages = e.messages();
    assert_eq!(messages.len(), 2);
    assert_eq!(
        messages[0],
        b"import path neither absolute nor prefixed with / or ./ or ../".to_vec()
    );
    assert_eq!(messages[1], b"lodash".to_vec());
}

#[test]
fn relative_path_needs_a_file_referrer() {
    let e = resolve(b"./dep.ts", b"https://example.com/main.ts").unwrap_err();
    assert_eq!(e.error_kind(), ErrorKind::Resolution);
    let messages = e.messages();
    assert_eq!(messages[0], b"referrer is not a local file specifier".to_vec());
    assert_eq!(messages[1], b"https://example.com/main.ts".to_vec());
}
