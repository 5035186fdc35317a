//! The image-assembly pipeline: classify the entries of a layer tarball,
//! substitute the fallback config when none was found (observably), and build
//! the manifest. Everything after the tar bytes are in memory is total,
//! verified logic.

use vstd::prelude::*;
use crate::archive::{
    ArchiveError, TarEntry, classify_entries, config_of, entries_view, layers_of,
    read_tar_entries, tar_entries_of, tar_ok,
};
use crate::manifest::{
    ImageConfig, Layer, Manifest, build, config_media_type, config_media_type_spec, layer_media_type,
    layer_media_type_spec, layer_view, layers_views, manifest_for,
};

verus! {

/// The literal two-byte JSON object `{}`, substituted when the archive holds
/// no config entry.
pub open spec fn fallback_config_spec() -> Seq<u8> {
    seq![123u8, 125u8]
}

/// The fallback config payload: the two bytes of `{}`.
pub fn fallback_config_bytes() -> (r: Vec<u8>)
    ensures
        r@ == fallback_config_spec(),
{
    let mut v: Vec<u8> = Vec::new();
    v.push(123);
    v.push(125);
    proof {
        assert(v@ =~= fallback_config_spec());
    }
    v
}

/// Assembly policy, held as configuration so that tests can assert on it
/// deliberately.
pub struct AssemblyOptions {
    /// Whether an archive with no layer entries is accepted. The standard
    /// policy accepts it and proceeds with an empty layer sequence.
    pub allow_empty_layers: bool,
}

impl AssemblyOptions {
    pub fn standard() -> (r: AssemblyOptions)
        ensures
            r.allow_empty_layers == true,
    {
        AssemblyOptions { allow_empty_layers: true }
    }
}

/// A refusal during assembly.
#[derive(Debug, PartialEq, Eq)]
pub enum AssembleError {
    /// The archive held no layer entries and the policy forbids that.
    NoLayers,
}

/// A failure to plan an image from tar bytes.
#[derive(Debug, PartialEq, Eq)]
pub enum PlanError {
    /// The tar stream could not be read.
    Archive(ArchiveError),
    /// The archive held no layer entries and the policy forbids that.
    NoLayers,
}

/// Everything the publisher needs for one run: the effective config, the
/// ordered layers, the manifest built from them, and whether the fallback
/// config was substituted (a reportable, non-fatal condition).
pub struct ImagePlan {
    pub config: ImageConfig,
    pub layers: Vec<Layer>,
    pub manifest: Manifest,
    pub config_fallback_used: bool,
}

/// The config payload in effect for a set of entries: the selected one, or
/// the fallback `{}` when none was selected.
pub open spec fn effective_config_of(entries: Seq<(Seq<char>, Seq<u8>)>) -> Seq<u8> {
    match config_of(entries) {
        Some(c) => c,
        None => fallback_config_spec(),
    }
}

/// A plan correctly assembled from a set of archive entries: the fallback is
/// used exactly when no config entry exists, the config carries the effective
/// payload and the fixed config media type, the layers carry the extracted
/// payloads in entry order under the default layer media type, and the
/// manifest is built from exactly these parts.
pub open spec fn plan_for(plan: ImagePlan, entries: Seq<(Seq<char>, Seq<u8>)>) -> bool {
    &&& plan.config_fallback_used == (config_of(entries) is None)
    &&& plan.config.data@ == effective_config_of(entries)
    &&& plan.config.media_type@ == config_media_type_spec()
    &&& plan.layers@.len() == layers_of(entries).len()
    &&& forall|i: int|
        0 <= i < plan.layers@.len() ==> layer_view(#[trigger] plan.layers@[i]) == (
        layer_media_type_spec(),
        layers_of(entries)[i],
        )
    &&& manifest_for(plan.manifest, effective_config_of(entries), layers_views(plan.layers@))
}

/// Assembles an image plan from the entries of an archive. Total but for the
/// empty-layer policy: it fails exactly when the entries yield no layer and
/// the options forbid that.
pub fn assemble_entries(entries: &Vec<TarEntry>, options: &AssemblyOptions) -> (r: Result<
    ImagePlan,
    AssembleError,
>)
    ensures
        r matches Ok(plan) ==> plan_for(plan, entries_view(entries@)),
        r is Err <==> (!options.allow_empty_layers && layers_of(entries_view(entries@)).len()
            == 0),
{
    let ghost ev = entries_view(entries@);
    let extraction = classify_entries(entries);
    if !options.allow_empty_layers && extraction.layers.len() == 0 {
        return Err(AssembleError::NoLayers);
    }
    let (config_data, fallback_used): (Vec<u8>, bool) = match extraction.config {
        Some(c) => (c, false),
        None => (fallback_config_bytes(), true),
    };
    let config = ImageConfig { data: config_data, media_type: config_media_type() };
    let mut layers: Vec<Layer> = Vec::new();
    let mut i: usize = 0;
    while i < extraction.layers.len()
        invariant
            i <= extraction.layers@.len(),
            crate::archive::payloads_view(extraction.layers@) == layers_of(ev),
            layers@.len() == i,
            forall|j: int|
                0 <= j < i ==> layer_view(#[trigger] layers@[j]) == (
                layer_media_type_spec(),
                layers_of(ev)[j],
                ),
        decreases extraction.layers.len() - i,
    {
        let data = vstd::slice::slice_to_vec(extraction.layers[i].as_slice());
        layers.push(Layer { data, media_type: layer_media_type() });
        i = i + 1;
    }
    let manifest = build(&config, &layers);
    Ok(ImagePlan { config, layers, manifest, config_fallback_used: fallback_used })
}

/// Plans an image from the bytes of a layer tarball: reads the entries out of
/// the archive and assembles them. It succeeds exactly on the readable
/// archives the policy accepts; a tar failure is surfaced unchanged.
pub fn plan_from_tar(tar_bytes: &[u8], options: &AssemblyOptions) -> (r: Result<
    ImagePlan,
    PlanError,
>)
    ensures
        r is Ok <==> (tar_ok(tar_bytes@) && (options.allow_empty_layers || layers_of(
            tar_entries_of(tar_bytes@),
        ).len() > 0)),
        r matches Ok(plan) ==> plan_for(plan, tar_entries_of(tar_bytes@)),
        r matches Err(e) ==> (e is Archive <==> !tar_ok(tar_bytes@)),
        r matches Err(e) ==> (e is NoLayers ==> !options.allow_empty_layers && layers_of(
            tar_entries_of(tar_bytes@),
        ).len() == 0),
{
    let entries = match read_tar_entries(tar_bytes) {
        Ok(entries) => entries,
        Err(e) => {
            return Err(PlanError::Archive(e));
        },
    };
    match assemble_entries(&entries, options) {
        Ok(plan) => Ok(plan),
        Err(AssembleError::NoLayers) => Err(PlanError::NoLayers),
    }
}

/// Law: assembly succeeds for every set of entries with no config entry,
/// provided the entries yield a layer or the policy accepts an empty layer
/// sequence, and it then observably uses the fallback `{}` payload.
pub proof fn lemma_fallback_config(plan: ImagePlan, entries: Seq<(Seq<char>, Seq<u8>)>)
    requires
        plan_for(plan, entries),
        config_of(entries) is None,
    ensures
        plan.config_fallback_used,
        plan.config.data@ == fallback_config_spec(),
        plan.manifest.config.size == 2,
{
}

} // verus!
