//! Resolving a catalog record to a concrete download.
//!
//! A [`CaskRecord`] carries a default download URL and per-OS-version
//! variations. Resolution picks the variation whose OS version matches the
//! requested one exactly, and falls back to the default URL otherwise. The
//! destination file is named after the final path segment of the resolved
//! URL, joined onto the run's output directory.

use vstd::prelude::*;
use crate::bytes::{bytes_eq, join_path, SLASH};

verus! {

/// Why a record could not be resolved to a usable download.
#[derive(Clone, Copy, PartialEq, Eq, Structural, Debug)]
pub enum ResolutionError {
    /// The metadata request itself failed.
    Request,
    /// The metadata response did not match the expected schema.
    Schema,
    /// The resolved URL does not parse as a URL with a final path segment,
    /// so no destination file could be named.
    MalformedUrl,
}

/// An OS-version-specific download URL override within a cask record.
pub struct Variation {
    pub os_version: Vec<u8>,
    pub url: Vec<u8>,
}

/// The package-metadata service's description of one application's
/// download locations. A record with no variations carries an empty list.
pub struct CaskRecord {
    pub default_url: Vec<u8>,
    pub variations: Vec<Variation>,
}

/// A fully resolved download: where to fetch from and where to write to.
#[derive(Debug)]
pub struct ResolvedDownload {
    pub app_id: Vec<u8>,
    pub source_url: Vec<u8>,
    pub destination_path: Vec<u8>,
}

/// The URL of the first variation whose OS version equals `version`,
/// if any.
pub open spec fn lookup_variation(vs: Seq<Variation>, version: Seq<u8>) -> Option<Seq<u8>>
    decreases vs.len(),
{
    if vs.len() == 0 {
        None
    } else if vs[0].os_version@ == version {
        Some(vs[0].url@)
    } else {
        lookup_variation(vs.skip(1), version)
    }
}

/// The URL a record resolves to for a requested OS version: an exact match
/// among the variations wins, otherwise the default URL.
pub open spec fn spec_resolved_url(r: CaskRecord, version: Seq<u8>) -> Seq<u8> {
    match lookup_variation(r.variations@, version) {
        Some(u) => u,
        None => r.default_url@,
    }
}

impl CaskRecord {
    /// Pick the download URL for the requested OS version.
    pub fn resolved_url(&self, version: &Vec<u8>) -> (r: Vec<u8>)
        ensures
            r@ == spec_resolved_url(*self, version@),
    {
        let mut i: usize = 0;
        assert(self.variations@.skip(0) =~= self.variations@);
        while i < self.variations.len()
            invariant
                i <= self.variations.len(),
                lookup_variation(self.variations@, version@)
                    == lookup_variation(self.variations@.skip(i as int), version@),
            decreases self.variations.len() - i,
        {
            if bytes_eq(&self.variations[i].os_version, version) {
                assert(self.variations@.skip(i as int)[0] == self.variations@[i as int]);
                let u = self.variations[i].url.clone();
                assert(u@ =~= self.variations@[i as int].url@);
                return u;
            }
            assert(self.variations@.skip(i as int).skip(1)
                =~= self.variations@.skip(i as int + 1));
            assert(self.variations@.skip(i as int)[0] == self.variations@[i as int]);
            i += 1;
        }
        assert(self.variations@.skip(i as int).len() == 0);
        let d = self.default_url.clone();
        assert(d@ =~= self.default_url@);
        d
    }
}

proof fn lemma_lookup_no_match(vs: Seq<Variation>, version: Seq<u8>)
    requires
        forall|k: int| 0 <= k < vs.len() ==> (#[trigger] vs[k]).os_version@ != version,
    ensures
        lookup_variation(vs, version) is None,
    decreases vs.len(),
{
    if vs.len() > 0 {
        assert(forall|k: int| 0 <= k < vs.skip(1).len()
            ==> (#[trigger] vs.skip(1)[k]).os_version@ != version) by {
            assert(forall|k: int| 0 <= k < vs.skip(1).len() ==> vs.skip(1)[k] == vs[k + 1]);
        }
        lemma_lookup_no_match(vs.skip(1), version);
    }
}

proof fn lemma_lookup_match(vs: Seq<Variation>, version: Seq<u8>, i: int)
    requires
        0 <= i < vs.len(),
        vs[i].os_version@ == version,
        forall|k: int| 0 <= k < i ==> (#[trigger] vs[k]).os_version@ != version,
    ensures
        lookup_variation(vs, version) == Some(vs[i].url@),
    decreases i,
{
    if i > 0 {
        assert(forall|k: int| 0 <= k < i - 1 ==> (#[trigger] vs.skip(1)[k]).os_version@ != version)
            by {
            assert(forall|k: int| 0 <= k < i - 1 ==> vs.skip(1)[k] == vs[k + 1]);
        }
        assert(vs.skip(1)[i - 1] == vs[i]);
        lemma_lookup_match(vs.skip(1), version, i - 1);
    }
}

/// Variant resolution, fallback half: a record none of whose variations
/// carries the requested OS version resolves to its default URL.
pub proof fn lemma_resolution_fallback(r: CaskRecord, version: Seq<u8>)
    requires
        forall|k: int| 0 <= k < r.variations@.len()
            ==> (#[trigger] r.variations@[k]).os_version@ != version,
    ensures
        spec_resolved_url(r, version) == r.default_url@,
{
    lemma_lookup_no_match(r.variations@, version);
}

/// Variant resolution, match half: a record with exactly one variation
/// carrying the requested OS version resolves to that variation's URL.
pub proof fn lemma_resolution_match(r: CaskRecord, version: Seq<u8>, i: int)
    requires
        0 <= i < r.variations@.len(),
        r.variations@[i].os_version@ == version,
        forall|k: int| 0 <= k < r.variations@.len() && k != i
            ==> (#[trigger] r.variations@[k]).os_version@ != version,
    ensures
        spec_resolved_url(r, version) == r.variations@[i].url@,
{
    lemma_lookup_match(r.variations@, version, i);
}

/// What the `url` crate yields as the final path segment of a string:
/// `None` where the string does not parse as an absolute URL, or where the
/// URL cannot be segmented into path segments. The segment excludes any
/// query string or fragment, and depends on the input bytes alone.
pub uninterp spec fn last_path_segment(s: Seq<u8>) -> Option<Seq<u8>>;

/// Relies on `url::Url::parse` and `url::Url::path_segments`: `parse`
/// rejects strings that are not absolute URLs; `path_segments` returns the
/// `/`-separated segments of the path (query and fragment excluded), and
/// `None` for URLs that cannot be a base. Both depend on the input alone,
/// so the result is named rather than spelled out.
#[verifier::external_body]
fn url_file_name(s: &Vec<u8>) -> (r: Option<Vec<u8>>)
    ensures
        match r {
            Some(v) => last_path_segment(s@) == Some(v@),
            None => last_path_segment(s@) is None,
        },
{
    let text = match core::str::from_utf8(s) {
        Ok(t) => t,
        Err(_) => return None,
    };
    let parsed = match url::Url::parse(text) {
        Ok(u) => u,
        Err(_) => return None,
    };
    let segment = parsed.path_segments()?.next_back()?;
    Some(segment.as_bytes().to_vec())
}

/// Name the destination file for a source URL: its final path segment.
pub fn destination_file_name(source_url: &Vec<u8>) -> (r: Option<Vec<u8>>)
    ensures
        match r {
            Some(v) => last_path_segment(source_url@) == Some(v@),
            None => last_path_segment(source_url@) is None,
        },
{
    url_file_name(source_url)
}

/// Resolve one application's record to a download: pick the URL for the
/// requested OS version and derive the destination path from its final
/// path segment, joined onto the output directory.
pub fn resolve_download(
    app_id: Vec<u8>,
    record: &CaskRecord,
    version: &Vec<u8>,
    output_dir: &Vec<u8>,
) -> (r: Result<ResolvedDownload, ResolutionError>)
    ensures
        match r {
            Ok(d) => {
                &&& d.app_id@ == app_id@
                &&& d.source_url@ == spec_resolved_url(*record, version@)
                &&& last_path_segment(d.source_url@) matches Some(name)
                    && d.destination_path@ == output_dir@ + seq![SLASH] + name
            },
            Err(e) => {
                &&& e == ResolutionError::MalformedUrl
                &&& last_path_segment(spec_resolved_url(*record, version@)) is None
            },
        },
{
    let source_url = record.resolved_url(version);
    match destination_file_name(&source_url) {
        Some(name) => {
            let destination_path = join_path(output_dir, &name);
            Ok(ResolvedDownload { app_id, source_url, destination_path })
        },
        None => Err(ResolutionError::MalformedUrl),
    }
}

} // verus!
