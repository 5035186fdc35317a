use oci_push::archive::{classify_entries, TarEntry};
use oci_push::manifest::{build, ImageConfig, Layer};
use oci_push::pipeline::{assemble_entries, AssembleError, AssemblyOptions};

fn entry(path: &str, data: &[u8]) -> TarEntry {
    TarEntry { path: path.to_string(), data: data.to_vec() }
}

#[test]
fn classification_last_config_wins() {
    let entries = vec![
        entry("x/config.json", b"first config"),
        entry("layer1.tar", b"layer one"),
        entry("notes.txt", b"ignored"),
        entry("y/config.json", b"second config"),
    ];
    let extraction = classify_entries(&entries);
    assert_eq!(extraction.config, Some(b"second config".to_vec()));
    assert_eq!(extraction.layers, vec![b"layer one".to_vec()]);
}

#[test]
fn classification_accepts_nested_and_gzipped_paths() {
    let entries = vec![
        entry("blobs/sha256/deadbeef/config.json", b"nested config"),
        entry("blobs/sha256/cafe/layer.tar.gz", b"gz layer"),
        entry("index.json", b"not a layer"),
    ];
    let extraction = classify_entries(&entries);
    assert_eq!(extraction.config, Some(b"nested config".to_vec()));
    assert_eq!(extraction.layers, vec![b"gz layer".to_vec()]);
}

#[test]
fn build_descriptor_sizes_and_order() {
    let config = ImageConfig {
        data: b"{\"os\":\"linux\"}".to_vec(),
        media_type: "application/vnd.oci.image.config.v1+json".to_string(),
    };
    let layers = vec![
        Layer {
            data: b"hello world".to_vec(),
            media_type: "application/vnd.oci.image.layer.v1.tar".to_string(),
        },
        Layer {
            data: b"second layer payload".to_vec(),
            media_type: "application/vnd.oci.image.layer.v1.tar".to_string(),
        },
    ];
    let manifest = build(&config, &layers);
    assert_eq!(manifest.schema_version, 2);
    assert_eq!(manifest.media_type, "application/vnd.oci.image.manifest.v1+json");
    assert_eq!(manifest.config.media_type, "application/vnd.oci.image.config.v1+json");
    assert_eq!(manifest.config.size, config.data.len() as u64);
    assert_eq!(manifest.layers.len(), 2);
    assert_eq!(manifest.layers[0].size, 11);
    assert_eq!(manifest.layers[1].size, 20);
    assert_eq!(
        manifest.layers[0].digest,
        "sha256:b94d27b9934d3e08a52e52d7da7dabfac484efe37a5380ee9088f7ace2efcde9"
    );
    assert_eq!(manifest.layers[0].media_type, "application/vnd.oci.image.layer.v1.tar");
    assert!(manifest.annotations.is_none());
    assert!(manifest.config.annotations.is_none());
    assert!(manifest.config.urls.is_none());
}

#[test]
fn fallback_config_is_used_and_observable() {
    let entries = vec![entry("layer1.tar", b"layer one")];
    let plan = assemble_entries(&entries, &AssemblyOptions::standard()).unwrap();
    assert!(plan.config_fallback_used);
    assert_eq!(plan.config.data, b"{}".to_vec());
    assert_eq!(plan.manifest.config.size, 2);
    assert_eq!(
        plan.manifest.config.digest,
        "sha256:44136fa355b3678a1146ad16f7e8649e94fb4fc21fe77e8310c060f61caaff8a"
    );
    assert_eq!(plan.layers.len(), 1);
}

#[test]
fn found_config_suppresses_fallback() {
    let entries = vec![
        entry("config.json", b"{\"os\":\"linux\"}"),
        entry("layer1.tar", b"layer one"),
    ];
    let plan = assemble_entries(&entries, &AssemblyOptions::standard()).unwrap();
    assert!(!plan.config_fallback_used);
    assert_eq!(plan.config.data, b"{\"os\":\"linux\"}".to_vec());
}

#[test]
fn empty_layers_accepted_by_standard_policy() {
    let entries = vec![entry("notes.txt", b"nothing useful")];
    let plan = assemble_entries(&entries, &AssemblyOptions::standard()).unwrap();
    assert_eq!(plan.layers.len(), 0);
    assert_eq!(plan.manifest.layers.len(), 0);
    assert!(plan.config_fallback_used);
}

#[test]
fn empty_layers_rejected_when_forbidden() {
    let entries = vec![entry("notes.txt", b"nothing useful")];
    let options = AssemblyOptions { allow_empty_layers: false };
    let result = assemble_entries(&entries, &options);
    assert!(matches!(result, Err(AssembleError::NoLayers)));
}
