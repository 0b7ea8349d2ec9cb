//! The module loader: resolves import specifiers, classifies a module's
//! media type, transpiles typed-script dialects, caches source maps, and
//! wraps the final text as a module record for the engine. The engine calls
//! it for every static or dynamic import, the entry module included.
//!
//! Reading file bytes is host I/O and stays outside: the host reads the file
//! at the path named by the specifier and hands the outcome to `load`.

use vstd::prelude::*;
use vstd::string::StringSliceAdditionalSpecFns;

use crate::error::ErrorKind;
use crate::error::TsError;
use crate::error::text_bytes;
use crate::media_type::MediaType;
use crate::media_type::ModuleKind;
use crate::media_type::media_type_of;
use crate::media_type::media_type_of_specifier;
use crate::media_type::module_kind;
use crate::media_type::requires_transpile;
use crate::media_type::spec_module_kind;
use crate::media_type::spec_requires_transpile;
use crate::specifier::ResolveFailure;
use crate::specifier::file_path_of;
use crate::specifier::is_file_url;
use crate::specifier::is_file_url_exec;
use crate::specifier::spec_resolve;
use crate::store::SourceMapStore;
use crate::text::bytes_of;
use crate::transpile::engine_transpile;
use crate::transpile::transpile_module;

verus! {

/// One loaded module, ready to hand to the engine.
#[derive(Debug)]
pub struct ModuleRecord {
    /// The canonical specifier the module was loaded under.
    pub specifier: Vec<u8>,
    /// Whether the engine treats the payload as code or as structured data.
    pub kind: ModuleKind,
    /// The executable (or structured-data) payload.
    pub code: Vec<u8>,
    /// The source map produced when the payload was transpiled.
    pub source_map: Option<Vec<u8>>,
}

/// The module loader. It owns the source-map store for its lifetime; the
/// store outlives each individual load and is read by diagnostic consumers.
pub struct TypescriptModuleLoader {
    source_maps: SourceMapStore,
}

impl View for TypescriptModuleLoader {
    type V = Map<Seq<u8>, Seq<u8>>;

    /// A loader is abstractly its source-map store.
    closed spec fn view(&self) -> Map<Seq<u8>, Seq<u8>> {
        self.source_maps@
    }
}

impl TypescriptModuleLoader {
    /// A fresh loader with an empty source-map store.
    pub fn new() -> (r: Self)
        ensures
            r@ == Map::<Seq<u8>, Seq<u8>>::empty(),
    {
        TypescriptModuleLoader { source_maps: SourceMapStore::new() }
    }

    /// Resolve an import specifier against the specifier of the importing
    /// module; see `crate::specifier::resolve` for the exact rules.
    pub fn resolve(&self, specifier: &[u8], referrer: &[u8]) -> (r: Result<Vec<u8>, TsError>)
        ensures
            spec_resolve(specifier@, referrer@) matches Ok(u) ==> (r matches Ok(v) && v@ == u),
            spec_resolve(specifier@, referrer@) == Result::<Seq<u8>, ResolveFailure>::Err(
                ResolveFailure::BareSpecifier,
            ) ==> (r matches Err(e) && e.kind() == ErrorKind::Resolution && e.chain() == seq![
                ("import path neither absolute nor prefixed with / or ./ or ../").spec_bytes(),
                specifier@,
            ]),
            spec_resolve(specifier@, referrer@) == Result::<Seq<u8>, ResolveFailure>::Err(
                ResolveFailure::BadReferrer,
            ) ==> (r matches Err(e) && e.kind() == ErrorKind::Resolution && e.chain() == seq![
                ("referrer is not a local file specifier").spec_bytes(),
                referrer@,
            ]),
    {
        crate::specifier::resolve(specifier, referrer)
    }

    /// Load one module: reject non-local specifiers, classify the media
    /// type, transpile when the dialect requires it (recording the source
    /// map under the specifier, where a later load of the same specifier
    /// wins), and pass any other payload through unchanged.
    ///
    /// `content` is the host's attempt to read the file the specifier
    /// names: the raw bytes, or the text of the I/O error when the file
    /// could not be read, which then stands as the root cause in the error
    /// chain.
    pub fn load(&mut self, specifier: &[u8], content: Result<&Vec<u8>, &Vec<u8>>) -> (r: Result<
        ModuleRecord,
        TsError,
    >)
        ensures
            !is_file_url(specifier@) ==> (r matches Err(e) && e.kind() == ErrorKind::Load
                && e.chain() == seq![
                ("only local file modules are supported").spec_bytes(),
                specifier@,
            ] && final(self)@ == old(self)@),
            is_file_url(specifier@) && media_type_of(specifier@) is Unknown ==> (r matches Err(e)
                && e.kind() == ErrorKind::Load && e.chain() == seq![
                ("unsupported extension").spec_bytes(),
                specifier@,
            ] && final(self)@ == old(self)@),
            content matches Err(io) ==> (is_file_url(specifier@) && !(media_type_of(specifier@)
                is Unknown) ==> (r matches Err(e) && e.kind() == ErrorKind::Load && e.chain()
                == seq![
                ("failed to read module file").spec_bytes(),
                file_path_of(specifier@),
                io@,
            ] && final(self)@ == old(self)@)),
            content matches Ok(src) ==> (is_file_url(specifier@) && !(media_type_of(specifier@)
                is Unknown) && !spec_requires_transpile(media_type_of(specifier@)) ==> (r matches
            Ok(rec) && rec.specifier@ == specifier@ && rec.kind == spec_module_kind(
                media_type_of(specifier@),
            ) && rec.code@ == src@ && rec.source_map is None && final(self)@ == old(self)@)),
            content matches Ok(src) ==> (is_file_url(specifier@) && !(media_type_of(specifier@)
                is Unknown) && spec_requires_transpile(media_type_of(specifier@)) ==> match
                engine_transpile(specifier@, src@) {
                Ok(p) => r matches Ok(rec) && rec.specifier@ == specifier@ && rec.kind
                    == ModuleKind::Code && rec.code@ == p.0 && (rec.source_map matches Some(m)
                    && m@ == p.1) && final(self)@ == old(self)@.insert(specifier@, p.1),
                Err(msg) => r matches Err(e) && e.kind() == ErrorKind::Transpile && e.chain()
                    == seq![vstd::utf8::encode_utf8(msg)] && final(self)@ == old(self)@,
            }),
    {
        if !is_file_url_exec(specifier) {
            return Err(
                TsError::new(ErrorKind::Load, bytes_of(specifier)).wrap(
                    text_bytes("only local file modules are supported"),
                ),
            );
        }
        let mt = media_type_of_specifier(specifier);
        if matches!(mt, MediaType::Unknown) {
            return Err(
                TsError::new(ErrorKind::Load, bytes_of(specifier)).wrap(
                    text_bytes("unsupported extension"),
                ),
            );
        }
        let src = match content {
            Ok(c) => c,
            Err(io) => {
                let path = &specifier[7..specifier.len()];
                proof {
                    assert(path@ =~= file_path_of(specifier@));
                }
                return Err(
                    TsError::new(ErrorKind::Load, bytes_of(io.as_slice())).wrap(
                        bytes_of(path),
                    ).wrap(text_bytes("failed to read module file")),
                );
            },
        };
        if requires_transpile(mt) {
            match transpile_module(specifier, src.as_slice()) {
                Ok(t) => {
                    let map_copy = bytes_of(t.source_map.as_slice());
                    self.source_maps.insert(bytes_of(specifier), t.source_map);
                    Ok(
                        ModuleRecord {
                            specifier: bytes_of(specifier),
                            kind: ModuleKind::Code,
                            code: t.code,
                            source_map: Some(map_copy),
                        },
                    )
                },
                Err(e) => Err(e),
            }
        } else {
            Ok(
                ModuleRecord {
                    specifier: bytes_of(specifier),
                    kind: module_kind(mt),
                    code: bytes_of(src.as_slice()),
                    source_map: None,
                },
            )
        }
    }

    /// Look up the source map recorded for a specifier: a pure read with no
    /// side effects; absence only means no map was recorded.
    pub fn get_source_map(&self, specifier: &[u8]) -> (r: Option<&Vec<u8>>)
        ensures
            match r {
                Some(v) => self@.contains_key(specifier@) && v@ == self@[specifier@],
                None => !self@.contains_key(specifier@),
            },
    {
        self.source_maps.get(specifier)
    }
}

} // verus!
