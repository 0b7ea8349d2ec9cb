//! Media-type classification: maps a module specifier to the source dialect
//! of the module it names, derived purely from the trailing file extension.
//!
//! Bindings: `.js`/`.mjs`/`.cjs` are plain script, `.jsx` is script with
//! markup, the `.ts`/`.mts`/`.cts`/`.d.ts`/`.d.mts`/`.d.cts`/`.tsx` family is
//! typed script, `.json` is structured data, and anything else is `Unknown`,
//! which makes a load fail.

use vstd::prelude::*;

use crate::text::after_last;
use crate::text::contains_byte;
use crate::text::contains_bytes;
use crate::text::contains_sub;
use crate::text::find_after_last;
use crate::text::lower_bytes;
use crate::text::to_lower;

verus! {

/// Source dialect of a module, derived from its specifier's extension.
#[derive(Clone, Copy, PartialEq, Eq, Structural, Debug)]
pub enum MediaType {
    JavaScript,
    Mjs,
    Cjs,
    Jsx,
    TypeScript,
    Mts,
    Cts,
    Dts,
    Dmts,
    Dcts,
    Tsx,
    Json,
    Unknown,
}

/// How the engine is told to treat a module's payload.
#[derive(Clone, Copy, PartialEq, Eq, Structural, Debug)]
pub enum ModuleKind {
    Code,
    StructuredData,
}

pub open spec fn ext_ts() -> Seq<u8> {
    seq!['t' as u8, 's' as u8]
}

pub open spec fn ext_mts() -> Seq<u8> {
    seq!['m' as u8, 't' as u8, 's' as u8]
}

pub open spec fn ext_cts() -> Seq<u8> {
    seq!['c' as u8, 't' as u8, 's' as u8]
}

pub open spec fn ext_tsx() -> Seq<u8> {
    seq!['t' as u8, 's' as u8, 'x' as u8]
}

pub open spec fn ext_js() -> Seq<u8> {
    seq!['j' as u8, 's' as u8]
}

pub open spec fn ext_mjs() -> Seq<u8> {
    seq!['m' as u8, 'j' as u8, 's' as u8]
}

pub open spec fn ext_cjs() -> Seq<u8> {
    seq!['c' as u8, 'j' as u8, 's' as u8]
}

pub open spec fn ext_jsx() -> Seq<u8> {
    seq!['j' as u8, 's' as u8, 'x' as u8]
}

pub open spec fn ext_json() -> Seq<u8> {
    seq!['j' as u8, 's' as u8, 'o' as u8, 'n' as u8]
}

/// A file stem that contains `.d.` marks a declaration-only file.
pub open spec fn has_declaration_stem(stem: Seq<u8>) -> bool {
    contains_sub(stem, seq!['.' as u8, 'd' as u8, '.' as u8])
}

/// Classification of a file name split into its stem (up to and including
/// the final dot) and its lower-cased extension.
pub open spec fn media_type_of_parts(stem: Seq<u8>, ext: Seq<u8>) -> MediaType {
    if ext == ext_ts() {
        if has_declaration_stem(stem) {
            MediaType::Dts
        } else {
            MediaType::TypeScript
        }
    } else if ext == ext_mts() {
        if has_declaration_stem(stem) {
            MediaType::Dmts
        } else {
            MediaType::Mts
        }
    } else if ext == ext_cts() {
        if has_declaration_stem(stem) {
            MediaType::Dcts
        } else {
            MediaType::Cts
        }
    } else if ext == ext_tsx() {
        MediaType::Tsx
    } else if ext == ext_js() {
        MediaType::JavaScript
    } else if ext == ext_mjs() {
        MediaType::Mjs
    } else if ext == ext_cjs() {
        MediaType::Cjs
    } else if ext == ext_jsx() {
        MediaType::Jsx
    } else if ext == ext_json() {
        MediaType::Json
    } else {
        MediaType::Unknown
    }
}

/// Classification of a bare file name (no directory part).
pub open spec fn media_type_of_name(name: Seq<u8>) -> MediaType {
    if !contains_byte(name, '.' as u8) {
        MediaType::Unknown
    } else {
        media_type_of_parts(
            name.take(name.len() - after_last(name, '.' as u8).len()),
            to_lower(after_last(name, '.' as u8)),
        )
    }
}

/// Classification of a whole specifier: only the part after the last `/`
/// (the file name) decides.
pub open spec fn media_type_of(specifier: Seq<u8>) -> MediaType {
    media_type_of_name(after_last(specifier, '/' as u8))
}

/// Whether this dialect must be transpiled before the engine can run it.
pub open spec fn spec_requires_transpile(mt: MediaType) -> bool {
    match mt {
        MediaType::Jsx => true,
        MediaType::TypeScript => true,
        MediaType::Mts => true,
        MediaType::Cts => true,
        MediaType::Dts => true,
        MediaType::Dmts => true,
        MediaType::Dcts => true,
        MediaType::Tsx => true,
        _ => false,
    }
}

/// The engine-facing module kind for a dialect; `Unknown` never reaches the
/// engine, so it is mapped to `Code` here and rejected by the loader.
pub open spec fn spec_module_kind(mt: MediaType) -> ModuleKind {
    match mt {
        MediaType::Json => ModuleKind::StructuredData,
        _ => ModuleKind::Code,
    }
}

/// Law: a structured-data module (`.json`) bypasses transpilation entirely.
/// Its engine-facing kind is `StructuredData` and its dialect requires no
/// lowering, so a load hands its payload through byte-for-byte and the
/// bridge later consumes the module's top-level value, not a `default`
/// binding.
pub proof fn lemma_structured_data_bypasses_transpilation(specifier: Seq<u8>)
    requires
        media_type_of(specifier) == MediaType::Json,
    ensures
        spec_module_kind(media_type_of(specifier)) == ModuleKind::StructuredData,
        !spec_requires_transpile(media_type_of(specifier)),
{
}

fn ext_is2(ext: &Vec<u8>, a: u8, b: u8) -> (r: bool)
    ensures
        r == (ext@ == seq![a, b]),
{
    let r = ext.len() == 2 && ext[0] == a && ext[1] == b;
    proof {
        if r {
            assert(ext@ =~= seq![a, b]);
        }
    }
    r
}

fn ext_is3(ext: &Vec<u8>, a: u8, b: u8, c: u8) -> (r: bool)
    ensures
        r == (ext@ == seq![a, b, c]),
{
    let r = ext.len() == 3 && ext[0] == a && ext[1] == b && ext[2] == c;
    proof {
        if r {
            assert(ext@ =~= seq![a, b, c]);
        }
    }
    r
}

fn ext_is4(ext: &Vec<u8>, a: u8, b: u8, c: u8, d: u8) -> (r: bool)
    ensures
        r == (ext@ == seq![a, b, c, d]),
{
    let r = ext.len() == 4 && ext[0] == a && ext[1] == b && ext[2] == c && ext[3] == d;
    proof {
        if r {
            assert(ext@ =~= seq![a, b, c, d]);
        }
    }
    r
}

fn has_declaration_stem_exec(stem: &[u8]) -> (r: bool)
    ensures
        r == has_declaration_stem(stem@),
{
    let mut needle: Vec<u8> = Vec::new();
    needle.push('.' as u8);
    needle.push('d' as u8);
    needle.push('.' as u8);
    proof {
        assert(needle@ =~= seq!['.' as u8, 'd' as u8, '.' as u8]);
    }
    contains_bytes(stem, needle.as_slice())
}

/// Classify a specifier into its media type.
pub fn media_type_of_specifier(specifier: &[u8]) -> (r: MediaType)
    ensures
        r == media_type_of(specifier@),
{
    let name_start = find_after_last(specifier, '/' as u8);
    let name = &specifier[name_start..specifier.len()];
    let dot = find_after_last(name, '.' as u8);
    if dot == 0 {
        return MediaType::Unknown;
    }
    let ext_raw = &name[dot..name.len()];
    let ext = lower_bytes(ext_raw);
    let stem = &name[0..dot];
    proof {
        assert(contains_byte(name@, '.' as u8));
        assert(stem@ =~= name@.take(name@.len() - after_last(name@, '.' as u8).len()));
        assert(ext@ == to_lower(after_last(name@, '.' as u8)));
    }
    let declaration = has_declaration_stem_exec(stem);
    if ext_is2(&ext, 't' as u8, 's' as u8) {
        if declaration {
            MediaType::Dts
        } else {
            MediaType::TypeScript
        }
    } else if ext_is3(&ext, 'm' as u8, 't' as u8, 's' as u8) {
        if declaration {
            MediaType::Dmts
        } else {
            MediaType::Mts
        }
    } else if ext_is3(&ext, 'c' as u8, 't' as u8, 's' as u8) {
        if declaration {
            MediaType::Dcts
        } else {
            MediaType::Cts
        }
    } else if ext_is3(&ext, 't' as u8, 's' as u8, 'x' as u8) {
        MediaType::Tsx
    } else if ext_is2(&ext, 'j' as u8, 's' as u8) {
        MediaType::JavaScript
    } else if ext_is3(&ext, 'm' as u8, 'j' as u8, 's' as u8) {
        MediaType::Mjs
    } else if ext_is3(&ext, 'c' as u8, 'j' as u8, 's' as u8) {
        MediaType::Cjs
    } else if ext_is3(&ext, 'j' as u8, 's' as u8, 'x' as u8) {
        MediaType::Jsx
    } else if ext_is4(&ext, 'j' as u8, 's' as u8, 'o' as u8, 'n' as u8) {
        MediaType::Json
    } else {
        MediaType::Unknown
    }
}

/// Whether this dialect must be transpiled, executable form.
pub fn requires_transpile(mt: MediaType) -> (r: bool)
    ensures
        r == spec_requires_transpile(mt),
{
    match mt {
        MediaType::Jsx => true,
        MediaType::TypeScript => true,
        MediaType::Mts => true,
        MediaType::Cts => true,
        MediaType::Dts => true,
        MediaType::Dmts => true,
        MediaType::Dcts => true,
        MediaType::Tsx => true,
        _ => false,
    }
}

/// The engine-facing module kind for a dialect, executable form.
pub fn module_kind(mt: MediaType) -> (r: ModuleKind)
    ensures
        r == spec_module_kind(mt),
{
    match mt {
        MediaType::Json => ModuleKind::StructuredData,
        _ => ModuleKind::Code,
    }
}

} // verus!
