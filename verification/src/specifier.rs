//! Module-specifier resolution: turns the specifier text of an import and
//! the specifier of the importing module (the referrer) into one canonical
//! absolute specifier, following the usual rules: an absolute `file:` URL
//! has its path brought to normal form; any other absolute URL stands as it
//! is (the loader rejects it later); a path starting with `/`, `./` or
//! `../` is resolved against a `file:` referrer with dot-segment
//! normalization; a bare specifier is rejected.

use vstd::prelude::*;
use vstd::string::StringSliceAdditionalSpecFns;

use crate::error::ErrorKind;
use crate::error::TsError;
use crate::error::text_bytes;
use crate::text::after_last;
use crate::text::bytes_of;
use crate::text::contains_byte;
use crate::text::find_after_last;
use crate::text::is_prefix;
use crate::text::push_all;
use crate::text::starts_with;

verus! {

pub open spec fn is_alpha(b: u8) -> bool {
    ('a' as u8 <= b && b <= 'z' as u8) || ('A' as u8 <= b && b <= 'Z' as u8)
}

pub open spec fn is_digit(b: u8) -> bool {
    '0' as u8 <= b && b <= '9' as u8
}

/// Characters allowed in a URL scheme after its first letter.
pub open spec fn is_scheme_char(b: u8) -> bool {
    is_alpha(b) || is_digit(b) || b == '+' as u8 || b == '-' as u8 || b == '.' as u8
}

/// Whether `s` starts with a URL scheme followed by `:`, which makes it an
/// absolute specifier.
pub open spec fn is_absolute_url(s: Seq<u8>) -> bool {
    s.len() > 0 && is_alpha(s[0]) && exists|i: int|
        0 < i < s.len() && #[trigger] s[i] == ':' as u8 && (forall|j: int|
            0 <= j < i ==> is_scheme_char(#[trigger] s[j]))
}

/// The `file://` prefix of a local-file specifier.
pub open spec fn file_scheme_prefix() -> Seq<u8> {
    seq![
        'f' as u8,
        'i' as u8,
        'l' as u8,
        'e' as u8,
        ':' as u8,
        '/' as u8,
        '/' as u8,
    ]
}

/// Whether `s` is a local-file specifier: `file://` followed by an absolute
/// path (empty authority).
pub open spec fn is_file_url(s: Seq<u8>) -> bool {
    is_prefix(s, file_scheme_prefix()) && s.len() > 7 && s[7] == '/' as u8
}

/// The path part of a local-file specifier.
pub open spec fn file_path_of(s: Seq<u8>) -> Seq<u8> {
    s.skip(7)
}

/// Segment-splitting state after reading a path prefix: the segments
/// completed so far and the partial segment after the last `/`.
pub open spec fn split_state(p: Seq<u8>) -> (Seq<Seq<u8>>, Seq<u8>)
    decreases p.len(),
{
    if p.len() == 0 {
        (Seq::empty(), Seq::empty())
    } else {
        let prev = split_state(p.drop_last());
        if p.last() == '/' as u8 {
            (prev.0.push(prev.1), Seq::empty())
        } else {
            (prev.0, prev.1.push(p.last()))
        }
    }
}

/// The `/`-separated segments of `p` (an empty `p` has one empty segment).
pub open spec fn split_segments(p: Seq<u8>) -> Seq<Seq<u8>> {
    split_state(p).0.push(split_state(p).1)
}

pub open spec fn dot_segment() -> Seq<u8> {
    seq!['.' as u8]
}

pub open spec fn dot_dot_segment() -> Seq<u8> {
    seq!['.' as u8, '.' as u8]
}

/// Dot-segment removal: `.` disappears, `..` removes the segment before it
/// (never rising above the root), any other segment is kept.
pub open spec fn normalize_segments(segs: Seq<Seq<u8>>) -> Seq<Seq<u8>>
    decreases segs.len(),
{
    if segs.len() == 0 {
        Seq::empty()
    } else {
        let acc = normalize_segments(segs.drop_last());
        if segs.last() == dot_segment() {
            acc
        } else if segs.last() == dot_dot_segment() {
            if acc.len() > 0 {
                acc.drop_last()
            } else {
                acc
            }
        } else {
            acc.push(segs.last())
        }
    }
}

/// Reassemble segments into an absolute path, one `/` before each segment.
pub open spec fn join_segments(segs: Seq<Seq<u8>>) -> Seq<u8>
    decreases segs.len(),
{
    if segs.len() == 0 {
        Seq::empty()
    } else {
        join_segments(segs.drop_last()) + seq!['/' as u8] + segs.last()
    }
}

/// Normal form of an absolute path: its segments after dot-segment removal,
/// or `/` when nothing remains.
pub open spec fn normalize_path(p: Seq<u8>) -> Seq<u8> {
    let segs = normalize_segments(split_segments(p.skip(1)));
    if segs.len() == 0 {
        seq!['/' as u8]
    } else {
        join_segments(segs)
    }
}

/// The directory part of an absolute path: everything before the last `/`.
pub open spec fn dir_of(p: Seq<u8>) -> Seq<u8> {
    p.take(p.len() - after_last(p, '/' as u8).len() - 1)
}

/// Why a specifier fails to resolve.
#[derive(Clone, Copy, PartialEq, Eq, Structural, Debug)]
pub enum ResolveFailure {
    /// The specifier is bare: neither an absolute URL nor prefixed with
    /// `/`, `./` or `../`.
    BareSpecifier,
    /// The referrer is not a local-file specifier a relative path could be
    /// resolved against.
    BadReferrer,
}

pub open spec fn starts_with_slash(s: Seq<u8>) -> bool {
    s.len() > 0 && s[0] == '/' as u8
}

pub open spec fn starts_with_dot_slash(s: Seq<u8>) -> bool {
    is_prefix(s, seq!['.' as u8, '/' as u8])
}

pub open spec fn starts_with_dot_dot_slash(s: Seq<u8>) -> bool {
    is_prefix(s, seq!['.' as u8, '.' as u8, '/' as u8])
}

pub open spec fn is_relative_start(s: Seq<u8>) -> bool {
    starts_with_slash(s) || starts_with_dot_slash(s) || starts_with_dot_dot_slash(s)
}

/// Resolution of `specifier` against `referrer`.
pub open spec fn spec_resolve(specifier: Seq<u8>, referrer: Seq<u8>) -> Result<
    Seq<u8>,
    ResolveFailure,
> {
    if is_file_url(specifier) {
        Ok(file_scheme_prefix() + normalize_path(file_path_of(specifier)))
    } else if is_absolute_url(specifier) {
        Ok(specifier)
    } else if is_relative_start(specifier) {
        if is_file_url(referrer) {
            if starts_with_slash(specifier) {
                Ok(file_scheme_prefix() + normalize_path(specifier))
            } else {
                Ok(
                    file_scheme_prefix() + normalize_path(
                        dir_of(file_path_of(referrer)) + seq!['/' as u8] + specifier,
                    ),
                )
            }
        } else {
            Err(ResolveFailure::BadReferrer)
        }
    } else {
        Err(ResolveFailure::BareSpecifier)
    }
}

fn is_absolute_url_exec(s: &[u8]) -> (r: bool)
    ensures
        r == is_absolute_url(s@),
{
    if s.len() == 0 {
        return false;
    }
    let first = s[0];
    let first_alpha = ('a' as u8 <= first && first <= 'z' as u8) || ('A' as u8 <= first && first
        <= 'Z' as u8);
    if !first_alpha {
        return false;
    }
    let mut i: usize = 0;
    while i < s.len()
        invariant
            i <= s@.len(),
            s@.len() > 0,
            is_alpha(s@[0]),
            forall|j: int| 0 <= j < i ==> is_scheme_char(#[trigger] s@[j]) && s@[j] != ':' as u8,
        decreases s@.len() - i,
    {
        let b = s[i];
        if b == ':' as u8 {
            if i == 0 {
                return false;
            }
            return true;
        }
        let scheme_char = ('a' as u8 <= b && b <= 'z' as u8) || ('A' as u8 <= b && b <= 'Z' as u8)
            || ('0' as u8 <= b && b <= '9' as u8) || b == '+' as u8 || b == '-' as u8 || b
            == '.' as u8;
        if !scheme_char {
            return false;
        }
        i = i + 1;
    }
    false
}

fn split_path(p: &[u8]) -> (r: Vec<Vec<u8>>)
    ensures
        r.deep_view() == split_segments(p@),
{
    let mut segs: Vec<Vec<u8>> = Vec::new();
    let mut cur: Vec<u8> = Vec::new();
    let mut i: usize = 0;
    while i < p.len()
        invariant
            i <= p@.len(),
            segs.deep_view() == split_state(p@.take(i as int)).0,
            cur@ == split_state(p@.take(i as int)).1,
        decreases p@.len() - i,
    {
        proof {
            assert(p@.take(i + 1).drop_last() =~= p@.take(i as int));
            assert(p@.take(i + 1).last() == p@[i as int]);
        }
        let ghost segs_before = segs.deep_view();
        let ghost cur_before = cur@;
        if p[i] == '/' as u8 {
            segs.push(cur);
            cur = Vec::new();
            proof {
                assert(segs.deep_view() =~~= segs_before.push(cur_before));
            }
        } else {
            cur.push(p[i]);
        }
        i = i + 1;
    }
    proof {
        assert(p@.take(p@.len() as int) =~= p@);
    }
    let ghost segs_final = segs.deep_view();
    let ghost cur_final = cur@;
    segs.push(cur);
    proof {
        assert(segs.deep_view() =~~= segs_final.push(cur_final));
    }
    segs
}

fn seg_is_dot(seg: &Vec<u8>) -> (r: bool)
    ensures
        r == (seg@ == dot_segment()),
{
    let r = seg.len() == 1 && seg[0] == '.' as u8;
    proof {
        if r {
            assert(seg@ =~= dot_segment());
        }
    }
    r
}

fn seg_is_dot_dot(seg: &Vec<u8>) -> (r: bool)
    ensures
        r == (seg@ == dot_dot_segment()),
{
    let r = seg.len() == 2 && seg[0] == '.' as u8 && seg[1] == '.' as u8;
    proof {
        if r {
            assert(seg@ =~= dot_dot_segment());
        }
    }
    r
}

fn normalize_segments_exec(segs: &Vec<Vec<u8>>) -> (r: Vec<Vec<u8>>)
    ensures
        r.deep_view() == normalize_segments(segs.deep_view()),
{
    let mut acc: Vec<Vec<u8>> = Vec::new();
    let mut i: usize = 0;
    while i < segs.len()
        invariant
            i <= segs@.len(),
            acc.deep_view() == normalize_segments(segs.deep_view().take(i as int)),
        decreases segs@.len() - i,
    {
        proof {
            assert(segs.deep_view().take(i + 1).drop_last() =~= segs.deep_view().take(i as int));
            assert(segs.deep_view().take(i + 1).last() == segs.deep_view()[i as int]);
            assert(segs@[i as int].deep_view() =~= segs@[i as int]@);
        }
        let seg = &segs[i];
        let ghost acc_before = acc.deep_view();
        if seg_is_dot(seg) {
        } else if seg_is_dot_dot(seg) {
            if acc.len() > 0 {
                let ghost popped = acc.deep_view();
                acc.pop();
                proof {
                    assert(acc.deep_view() =~~= popped.drop_last());
                }
            }
        } else {
            let copied = bytes_of(seg.as_slice());
            acc.push(copied);
            proof {
                assert(acc.deep_view() =~~= acc_before.push(segs.deep_view()[i as int]));
            }
        }
        i = i + 1;
    }
    proof {
        assert(segs.deep_view().take(segs@.len() as int) =~= segs.deep_view());
    }
    acc
}

fn join_path(segs: &Vec<Vec<u8>>) -> (r: Vec<u8>)
    ensures
        r@ == join_segments(segs.deep_view()),
{
    let mut out: Vec<u8> = Vec::new();
    let mut i: usize = 0;
    while i < segs.len()
        invariant
            i <= segs@.len(),
            out@ == join_segments(segs.deep_view().take(i as int)),
        decreases segs@.len() - i,
    {
        proof {
            assert(segs.deep_view().take(i + 1).drop_last() =~= segs.deep_view().take(i as int));
            assert(segs.deep_view().take(i + 1).last() == segs.deep_view()[i as int]);
            assert(segs@[i as int].deep_view() =~= segs@[i as int]@);
        }
        out.push('/' as u8);
        push_all(&mut out, segs[i].as_slice());
        i = i + 1;
    }
    proof {
        assert(segs.deep_view().take(segs@.len() as int) =~= segs.deep_view());
    }
    out
}

fn normalize_path_exec(p: &[u8]) -> (r: Vec<u8>)
    requires
        p@.len() > 0,
        p@[0] == '/' as u8,
    ensures
        r@ == normalize_path(p@),
{
    let tail = &p[1..p.len()];
    proof {
        assert(tail@ =~= p@.skip(1));
    }
    let segs = split_path(tail);
    let norm = normalize_segments_exec(&segs);
    if norm.len() == 0 {
        let mut out: Vec<u8> = Vec::new();
        out.push('/' as u8);
        proof {
            assert(out@ =~= seq!['/' as u8]);
        }
        out
    } else {
        join_path(&norm)
    }
}

fn file_prefix_vec() -> (r: Vec<u8>)
    ensures
        r@ == file_scheme_prefix(),
{
    let mut p: Vec<u8> = Vec::new();
    p.push('f' as u8);
    p.push('i' as u8);
    p.push('l' as u8);
    p.push('e' as u8);
    p.push(':' as u8);
    p.push('/' as u8);
    p.push('/' as u8);
    proof {
        assert(p@ =~= file_scheme_prefix());
    }
    p
}

/// Whether a specifier names a local file, executable form.
pub fn is_file_url_exec(s: &[u8]) -> (r: bool)
    ensures
        r == is_file_url(s@),
{
    let prefix = file_prefix_vec();
    starts_with(s, prefix.as_slice()) && s.len() > 7 && s[7] == '/' as u8
}

/// Resolve an import specifier against the specifier of the importing
/// module.
///
/// An absolute `file:` URL is normalized (dot segments removed, so that
/// records and source-map keys carry one canonical form); any other
/// absolute URL is returned unchanged; `/`, `./` and `../` paths are
/// resolved against a `file:` referrer, with `.` and `..` segments removed;
/// a bare specifier, or a relative path against a non-`file:` referrer, is a
/// `Resolution` error whose root cause names the offending input.
pub fn resolve(specifier: &[u8], referrer: &[u8]) -> (r: Result<Vec<u8>, TsError>)
    ensures
        spec_resolve(specifier@, referrer@) matches Ok(u) ==> r matches Ok(v) && v@ == u,
        spec_resolve(specifier@, referrer@) == Result::<Seq<u8>, ResolveFailure>::Err(
            ResolveFailure::BareSpecifier,
        ) ==> (r matches Err(e) && e.kind() == ErrorKind::Resolution && e.chain() == seq![
            ("import path neither absolute nor prefixed with / or ./ or ../").spec_bytes(),
            specifier@,
        ]),
        spec_resolve(specifier@, referrer@) == Result::<Seq<u8>, ResolveFailure>::Err(
            ResolveFailure::BadReferrer,
        ) ==> (r matches Err(e) && e.kind() == ErrorKind::Resolution && e.chain() == seq![
            ("referrer is not a local file specifier").spec_bytes(),
            referrer@,
        ]),
{
    if is_file_url_exec(specifier) {
        let path = &specifier[7..specifier.len()];
        proof {
            assert(path@ =~= file_path_of(specifier@));
            assert(path@[0] == '/' as u8);
        }
        let normalized = normalize_path_exec(path);
        let mut out = file_prefix_vec();
        push_all(&mut out, normalized.as_slice());
        return Ok(out);
    }
    if is_absolute_url_exec(specifier) {
        return Ok(bytes_of(specifier));
    }
    let slash = specifier.len() > 0 && specifier[0] == '/' as u8;
    let mut dot_slash_prefix: Vec<u8> = Vec::new();
    dot_slash_prefix.push('.' as u8);
    dot_slash_prefix.push('/' as u8);
    proof {
        assert(dot_slash_prefix@ =~= seq!['.' as u8, '/' as u8]);
    }
    let dot = starts_with(specifier, dot_slash_prefix.as_slice());
    let mut dot_dot_prefix: Vec<u8> = Vec::new();
    dot_dot_prefix.push('.' as u8);
    dot_dot_prefix.push('.' as u8);
    dot_dot_prefix.push('/' as u8);
    proof {
        assert(dot_dot_prefix@ =~= seq!['.' as u8, '.' as u8, '/' as u8]);
    }
    let dot_dot = starts_with(specifier, dot_dot_prefix.as_slice());
    if !(slash || dot || dot_dot) {
        let root = bytes_of(specifier);
        return Err(
            TsError::new(ErrorKind::Resolution, root).wrap(
                text_bytes("import path neither absolute nor prefixed with / or ./ or ../"),
            ),
        );
    }
    if !is_file_url_exec(referrer) {
        let root = bytes_of(referrer);
        return Err(
            TsError::new(ErrorKind::Resolution, root).wrap(
                text_bytes("referrer is not a local file specifier"),
            ),
        );
    }
    let normalized = if slash {
        normalize_path_exec(specifier)
    } else {
        let ref_path = &referrer[7..referrer.len()];
        proof {
            assert(ref_path@ =~= file_path_of(referrer@));
            assert(ref_path@[0] == '/' as u8);
        }
        let seg_start = find_after_last(ref_path, '/' as u8);
        proof {
            assert(contains_byte(ref_path@, '/' as u8));
        }
        let dir = &ref_path[0..seg_start - 1];
        let mut joined = bytes_of(dir);
        joined.push('/' as u8);
        push_all(&mut joined, specifier);
        proof {
            assert(dir@ =~= dir_of(file_path_of(referrer@)));
            assert(joined@ =~= dir_of(file_path_of(referrer@)) + seq!['/' as u8] + specifier@);
            assert(joined@[0] == '/' as u8);
        }
        normalize_path_exec(joined.as_slice())
    };
    let mut out = file_prefix_vec();
    push_all(&mut out, normalized.as_slice());
    Ok(out)
}

/// The `file:` specifier naming a host path: the `file://` prefix followed
/// by the path bytes. For an absolute path (one starting with `/`) the
/// result is a local-file specifier the loader accepts.
pub fn file_url_of_path(path: &[u8]) -> (r: Vec<u8>)
    ensures
        r@ == file_scheme_prefix() + path@,
        path@.len() > 0 && path@[0] == '/' as u8 ==> is_file_url(r@),
{
    let mut out = file_prefix_vec();
    push_all(&mut out, path);
    proof {
        assert(out@.subrange(0, 7) =~= file_scheme_prefix());
        if path@.len() > 0 && path@[0] == '/' as u8 {
            assert(out@[7] == path@[0]);
        }
    }
    out
}

} // verus!
