//! The image manifest model: descriptors derived from payloads and the
//! builder that assembles a schema-version-2 manifest from one config payload
//! and an ordered sequence of layers.

use vstd::prelude::*;
use crate::digest::{compute_digest, digest_spec};

verus! {

/// A layer payload and its declared media type.
pub struct Layer {
    pub data: Vec<u8>,
    pub media_type: String,
}

/// The image runtime configuration payload and its declared media type.
pub struct ImageConfig {
    pub data: Vec<u8>,
    pub media_type: String,
}

/// A manifest entry referencing a payload by media type, content digest and
/// byte length.
pub struct Descriptor {
    pub media_type: String,
    pub digest: String,
    pub size: u64,
    pub annotations: Option<Vec<(String, String)>>,
    pub urls: Option<Vec<String>>,
}

/// The image manifest: schema version, manifest media type, one config
/// descriptor and the ordered layer descriptors.
pub struct Manifest {
    pub schema_version: u64,
    pub media_type: String,
    pub config: Descriptor,
    pub layers: Vec<Descriptor>,
    pub annotations: Option<Vec<(String, String)>>,
}

pub open spec fn layer_media_type_spec() -> Seq<char> {
    "application/vnd.oci.image.layer.v1.tar"@
}

pub open spec fn config_media_type_spec() -> Seq<char> {
    "application/vnd.oci.image.config.v1+json"@
}

pub open spec fn manifest_media_type_spec() -> Seq<char> {
    "application/vnd.oci.image.manifest.v1+json"@
}

/// The default media type declared for a layer extracted from an archive.
pub fn layer_media_type() -> (r: String)
    ensures
        r@ == layer_media_type_spec(),
{
    "application/vnd.oci.image.layer.v1.tar".to_owned()
}

/// The fixed media type of the config payload.
pub fn config_media_type() -> (r: String)
    ensures
        r@ == config_media_type_spec(),
{
    "application/vnd.oci.image.config.v1+json".to_owned()
}

/// The fixed media type of the manifest itself.
pub fn manifest_media_type() -> (r: String)
    ensures
        r@ == manifest_media_type_spec(),
{
    "application/vnd.oci.image.manifest.v1+json".to_owned()
}

/// A descriptor correctly derived from a payload: its digest is the content
/// digest of the payload, its size the payload's byte length, and it carries
/// no annotations or urls.
pub open spec fn descriptor_for(d: Descriptor, media_type: Seq<char>, payload: Seq<u8>) -> bool {
    &&& d.media_type@ == media_type
    &&& d.digest@ == digest_spec(payload)
    &&& d.size == payload.len()
    &&& d.annotations is None
    &&& d.urls is None
}

/// The view a layer presents to specifications: its media type and payload.
pub open spec fn layer_view(l: Layer) -> (Seq<char>, Seq<u8>) {
    (l.media_type@, l.data@)
}

pub open spec fn layers_views(ls: Seq<Layer>) -> Seq<(Seq<char>, Seq<u8>)> {
    ls.map_values(|l: Layer| layer_view(l))
}

/// A manifest correctly built from a config payload and ordered layers:
/// schema version 2, the fixed manifest and config media types, a config
/// descriptor derived from the config payload, and one layer descriptor per
/// layer, in input order, each derived from that layer.
pub open spec fn manifest_for(
    m: Manifest,
    config_payload: Seq<u8>,
    layers: Seq<(Seq<char>, Seq<u8>)>,
) -> bool {
    &&& m.schema_version == 2
    &&& m.media_type@ == manifest_media_type_spec()
    &&& descriptor_for(m.config, config_media_type_spec(), config_payload)
    &&& m.layers@.len() == layers.len()
    &&& forall|i: int|
        0 <= i < layers.len() ==> descriptor_for(#[trigger] m.layers@[i], layers[i].0, layers[i].1)
    &&& m.annotations is None
}

/// Derives the descriptor of one payload.
pub fn describe(media_type: String, payload: &Vec<u8>) -> (r: Descriptor)
    ensures
        descriptor_for(r, media_type@, payload@),
{
    let size = payload.len();
    Descriptor {
        media_type,
        digest: compute_digest(payload.as_slice()),
        size: size as u64,
        annotations: None,
        urls: None,
    }
}

/// Assembles the manifest for one config payload and an ordered sequence of
/// layers. Total: every well-formed input yields a manifest, and the layer
/// descriptor order is the input layer order.
pub fn build(config: &ImageConfig, layers: &Vec<Layer>) -> (r: Manifest)
    ensures
        manifest_for(r, config.data@, layers_views(layers@)),
{
    let ghost lvs = layers_views(layers@);
    let config_descriptor = describe(config_media_type(), &config.data);
    let mut layer_descriptors: Vec<Descriptor> = Vec::new();
    let mut i: usize = 0;
    while i < layers.len()
        invariant
            i <= layers.len(),
            lvs == layers_views(layers@),
            lvs.len() == layers@.len(),
            forall|j: int| 0 <= j < lvs.len() ==> lvs[j] == layer_view(layers@[j]),
            layer_descriptors@.len() == i,
            forall|j: int|
                0 <= j < i ==> descriptor_for(
                    #[trigger] layer_descriptors@[j],
                    lvs[j].0,
                    lvs[j].1,
                ),
        decreases layers.len() - i,
    {
        let layer = &layers[i];
        let media_type = clone_string(&layer.media_type);
        layer_descriptors.push(describe(media_type, &layer.data));
        i = i + 1;
    }
    Manifest {
        schema_version: 2,
        media_type: manifest_media_type(),
        config: config_descriptor,
        layers: layer_descriptors,
        annotations: None,
    }
}

/// A copy of a string with the same characters.
pub fn clone_string(s: &String) -> (r: String)
    ensures
        r@ == s@,
{
    s.as_str().to_owned()
}

/// Law: in a built manifest, the config descriptor's size is the config
/// payload's byte length, each layer descriptor's size is that layer
/// payload's byte length, and the layer descriptors stand in input order
/// (descriptor `i` is derived from layer `i`).
pub proof fn lemma_build_sizes_and_order(
    m: Manifest,
    config_payload: Seq<u8>,
    layers: Seq<(Seq<char>, Seq<u8>)>,
)
    requires
        manifest_for(m, config_payload, layers),
    ensures
        m.config.size == config_payload.len(),
        m.layers@.len() == layers.len(),
        forall|i: int| 0 <= i < layers.len() ==> #[trigger] m.layers@[i].size == layers[i].1.len(),
        forall|i: int|
            0 <= i < layers.len() ==> (#[trigger] m.layers@[i].media_type@) == layers[i].0
                && m.layers@[i].digest@ == digest_spec(layers[i].1),
{
}

} // verus!
