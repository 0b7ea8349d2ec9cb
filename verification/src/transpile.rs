//! Transpiler adapter: lowers typed-script source (type annotations, markup
//! syntax, decorator proposal syntax) to plain script the engine can run,
//! together with a separate source map that embeds the original source text.
//!
//! The lowering itself is done by the `deno_ast` parser and emitter behind
//! one trusted wrapper; everything this module states about it goes through
//! the uninterpreted name `engine_transpile`, which records that the outcome
//! is a function of the specifier and the source text alone.

use vstd::prelude::*;

use deno_ast::DecoratorsTranspileOption::Ecma;
use deno_ast::EmitOptions;
use deno_ast::MediaType as AstMediaType;
use deno_ast::ModuleSpecifier;
use deno_ast::ParseParams;
use deno_ast::SourceMapOption::Separate;
use deno_ast::TranspileOptions;
use deno_ast::parse_module;

use crate::error::ErrorKind;
use crate::error::TsError;
use crate::error::text_bytes;

verus! {

/// What the engine's transpiler returns for a given specifier and source:
/// either the lowered code and its source map, or a parse-error message.
/// The specifier takes part because the media type (and with it the parse
/// dialect) is derived from its extension.
pub uninterp spec fn engine_transpile(specifier: Seq<u8>, source: Seq<u8>) -> Result<
    (Seq<u8>, Seq<u8>),
    Seq<char>,
>;

/// Relies on `deno_ast::parse_module` and `deno_ast::ParsedSource::transpile`
/// (with the TC39 decorator proposal accepted, type-only imports removed, and
/// a separate source map carrying the original source): the outcome is a pure
/// function of the specifier and the source text, named `engine_transpile`.
/// A leading byte-order mark is stripped before the parse — the parser does
/// the same silently in release builds but aborts on it in debug builds.
#[verifier::external_body]
fn transpile_call(specifier: &[u8], source: &[u8]) -> (r: Result<(Vec<u8>, Vec<u8>), String>)
    ensures
        r matches Ok(ok) ==> engine_transpile(specifier@, source@) matches Ok(p) && ok.0@ == p.0
            && ok.1@ == p.1,
        r matches Err(e) ==> engine_transpile(specifier@, source@) matches Err(m) && e@ == m,
{
    let url = ModuleSpecifier::parse(&String::from_utf8_lossy(specifier)).map_err(|e| e.to_string())?;
    let text = String::from_utf8_lossy(source.strip_prefix(b"\xEF\xBB\xBF").unwrap_or(source));
    let parsed = parse_module(ParseParams { media_type: AstMediaType::from_specifier(&url), specifier: url, text: text.into(), capture_tokens: false, scope_analysis: false, maybe_syntax: None }).map_err(|e| e.to_string())?;
    let out = parsed.transpile(&TranspileOptions { decorators: Ecma, ..Default::default() }, &Default::default(), &EmitOptions { source_map: Separate, ..Default::default() }).map_err(|e| e.to_string())?.into_source();
    Ok((out.text.into_bytes(), out.source_map.ok_or("no source map produced".to_string())?.into_bytes()))
}

/// Plain-script output of one transpilation.
#[derive(Debug)]
pub struct TranspiledModule {
    /// Executable plain-script source.
    pub code: Vec<u8>,
    /// Source map back to the original file, stored separately.
    pub source_map: Vec<u8>,
}

/// Lower one module's typed-script source to plain script.
///
/// On success the code and map are exactly what the engine's transpiler
/// returns for this specifier and source; on a parse failure the error is a
/// `Transpile` error whose root cause is the parser's message. Neither case
/// ever yields partially applied output.
pub fn transpile_module(specifier: &[u8], source: &[u8]) -> (r: Result<TranspiledModule, TsError>)
    ensures
        r matches Ok(t) ==> engine_transpile(specifier@, source@) matches Ok(p) && t.code@ == p.0
            && t.source_map@ == p.1,
        r matches Err(e) ==> engine_transpile(specifier@, source@) matches Err(m) && e.kind()
            == ErrorKind::Transpile && e.chain() == seq![vstd::utf8::encode_utf8(m)],
{
    match transpile_call(specifier, source) {
        Ok((code, source_map)) => Ok(TranspiledModule { code, source_map }),
        Err(message) => Err(TsError::new(ErrorKind::Transpile, text_bytes(message.as_str()))),
    }
}

/// Law: transpilation is deterministic. The outcome for a given specifier
/// and source is a single value, so two transpilations of the same input
/// yield byte-identical code and maps, and agree on success versus failure.
pub proof fn lemma_transpile_deterministic(specifier: Seq<u8>, source: Seq<u8>)
    ensures
        engine_transpile(specifier, source) matches Ok(p) ==> (engine_transpile(specifier, source)
            matches Ok(q) && p == q),
        engine_transpile(specifier, source) matches Err(m) ==> (engine_transpile(specifier, source)
            matches Err(n) && m == n),
{
}

} // verus!
