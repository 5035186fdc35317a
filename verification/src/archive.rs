//! Classification of tar archive entries into one optional config payload
//! and an ordered sequence of layer payloads. An entry whose path ends with
//! `config.json` is a config candidate (the last such entry wins); an entry
//! whose path ends with `.tar` or `.tar.gz` is a layer; anything else is
//! ignored.

use vstd::prelude::*;

verus! {

/// One entry read out of a tar archive: its path (lossily decoded) and its
/// full byte contents.
pub struct TarEntry {
    pub path: String,
    pub data: Vec<u8>,
}

/// A failure to read entries out of a tar stream.
#[derive(Debug, PartialEq, Eq)]
pub enum ArchiveError {
    /// The stream is not a valid tar structure.
    InvalidTar,
    /// An entry's declared size could not be read to completion.
    TruncatedEntry,
}

/// The path and contents of one entry, as specifications see it.
pub open spec fn entry_view(e: TarEntry) -> (Seq<char>, Seq<u8>) {
    (e.path@, e.data@)
}

pub open spec fn entries_view(es: Seq<TarEntry>) -> Seq<(Seq<char>, Seq<u8>)> {
    es.map_values(|e: TarEntry| entry_view(e))
}

/// The entries of a tar archive held in memory, as the `tar` crate reads
/// them: a function of the archive bytes alone, so it is only given a name
/// here.
pub uninterp spec fn tar_entries_of(data: Seq<u8>) -> Seq<(Seq<char>, Seq<u8>)>;

/// Whether the `tar` crate reads a byte sequence to completion as an
/// archive: like the entries themselves, a function of the bytes alone.
pub uninterp spec fn tar_ok(data: Seq<u8>) -> bool;

/// Relies on `tar::Archive` over an in-memory byte slice: the entries it
/// yields (paths lossily decoded to strings, contents read to completion)
/// are a function of the archive bytes alone, and so is whether reading them
/// succeeds; a structure or read failure is reported as an error.
#[verifier::external_body]
pub(crate) fn read_tar_entries(data: &[u8]) -> (r: Result<Vec<TarEntry>, ArchiveError>)
    ensures
        r is Ok <==> tar_ok(data@),
        r matches Ok(entries) ==> entries_view(entries@) == tar_entries_of(data@),
{
    let mut archive = tar::Archive::new(data);
    let mut out: Vec<TarEntry> = Vec::new();
    for next in archive.entries().map_err(|_| ArchiveError::InvalidTar)? {
        let mut entry = next.map_err(|_| ArchiveError::InvalidTar)?;
        let path = entry.path().map_err(|_| ArchiveError::InvalidTar)?.to_string_lossy().into_owned();
        let mut buf: Vec<u8> = Vec::new();
        std::io::Read::read_to_end(&mut entry, &mut buf).map_err(|_| ArchiveError::TruncatedEntry)?;
        out.push(TarEntry { path, data: buf });
    }
    Ok(out)
}

pub open spec fn ends_with(s: Seq<char>, suffix: Seq<char>) -> bool {
    s.len() >= suffix.len() && s.skip(s.len() - suffix.len()) == suffix
}

/// An entry classified as a config payload: its path ends with
/// `config.json`, nested paths included.
pub open spec fn is_config_path(p: Seq<char>) -> bool {
    ends_with(p, "config.json"@)
}

/// An entry classified as a layer payload: its path ends with `.tar` or
/// `.tar.gz`, and the config rule above did not already claim it.
pub open spec fn is_layer_path(p: Seq<char>) -> bool {
    !is_config_path(p) && (ends_with(p, ".tar"@) || ends_with(p, ".tar.gz"@))
}

/// The config payload selected from the entries: the contents of the last
/// entry whose path ends with `config.json`, if any.
pub open spec fn config_of(entries: Seq<(Seq<char>, Seq<u8>)>) -> Option<Seq<u8>>
    decreases entries.len(),
{
    if entries.len() == 0 {
        None
    } else if is_config_path(entries.last().0) {
        Some(entries.last().1)
    } else {
        config_of(entries.drop_last())
    }
}

/// The layer payloads selected from the entries, in entry order.
pub open spec fn layers_of(entries: Seq<(Seq<char>, Seq<u8>)>) -> Seq<Seq<u8>>
    decreases entries.len(),
{
    if entries.len() == 0 {
        Seq::empty()
    } else {
        let rest = layers_of(entries.drop_last());
        if is_layer_path(entries.last().0) {
            rest.push(entries.last().1)
        } else {
            rest
        }
    }
}

/// The partition of an archive's entries: at most one config payload and the
/// ordered layer payloads.
pub struct Extraction {
    pub config: Option<Vec<u8>>,
    pub layers: Vec<Vec<u8>>,
}

pub open spec fn extraction_config_view(config: Option<Vec<u8>>) -> Option<Seq<u8>> {
    match config {
        Some(c) => Some(c@),
        None => None,
    }
}

pub open spec fn payloads_view(layers: Seq<Vec<u8>>) -> Seq<Seq<u8>> {
    layers.map_values(|l: Vec<u8>| l@)
}

fn str_ends_with(s: &str, suffix: &str) -> (r: bool)
    ensures
        r == ends_with(s@, suffix@),
{
    let n = s.unicode_len();
    let m = suffix.unicode_len();
    if m > n {
        return false;
    }
    let mut i: usize = 0;
    while i < m
        invariant
            i <= m,
            m <= n,
            n == s@.len(),
            m == suffix@.len(),
            forall|j: int| 0 <= j < i ==> s@[n - m + j] == suffix@[j],
        decreases m - i,
    {
        if s.get_char(n - m + i) != suffix.get_char(i) {
            proof {
                if ends_with(s@, suffix@) {
                    assert(s@.skip(n - m)[i as int] == suffix@[i as int]);
                }
            }
            return false;
        }
        i = i + 1;
    }
    proof {
        assert(s@.skip(n - m) =~= suffix@);
    }
    true
}

/// Decides whether one entry path names a config payload.
pub fn path_is_config(path: &str) -> (r: bool)
    ensures
        r == is_config_path(path@),
{
    str_ends_with(path, "config.json")
}

/// Decides whether one entry path names a layer payload.
pub fn path_is_layer(path: &str) -> (r: bool)
    ensures
        r == is_layer_path(path@),
{
    if path_is_config(path) {
        false
    } else {
        str_ends_with(path, ".tar") || str_ends_with(path, ".tar.gz")
    }
}

/// Partitions the entries of an archive: the last entry whose path ends with
/// `config.json` supplies the config payload, entries whose paths end with
/// `.tar` or `.tar.gz` supply the layer payloads in entry order, and every
/// other entry is ignored.
pub fn classify_entries(entries: &Vec<TarEntry>) -> (r: Extraction)
    ensures
        extraction_config_view(r.config) == config_of(entries_view(entries@)),
        payloads_view(r.layers@) == layers_of(entries_view(entries@)),
{
    let ghost ev = entries_view(entries@);
    let mut config: Option<Vec<u8>> = None;
    let mut layers: Vec<Vec<u8>> = Vec::new();
    let mut i: usize = 0;
    while i < entries.len()
        invariant
            i <= entries.len(),
            ev == entries_view(entries@),
            ev.len() == entries@.len(),
            forall|j: int| 0 <= j < ev.len() ==> ev[j] == entry_view(entries@[j]),
            extraction_config_view(config) == config_of(ev.take(i as int)),
            payloads_view(layers@) == layers_of(ev.take(i as int)),
        decreases entries.len() - i,
    {
        let entry = &entries[i];
        proof {
            assert(ev.take(i + 1).drop_last() =~= ev.take(i as int));
            assert(ev.take(i + 1).last() == ev[i as int]);
        }
        if path_is_config(entry.path.as_str()) {
            config = Some(vstd::slice::slice_to_vec(entry.data.as_slice()));
        } else if path_is_layer(entry.path.as_str()) {
            layers.push(vstd::slice::slice_to_vec(entry.data.as_slice()));
            proof {
                assert(payloads_view(layers@) =~= layers_of(ev.take(i + 1)));
            }
        }
        i = i + 1;
    }
    proof {
        assert(ev.take(entries@.len() as int) =~= ev);
    }
    Extraction { config, layers }
}

} // verus!
