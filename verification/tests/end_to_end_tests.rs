use oci_push::pipeline::{plan_from_tar, AssemblyOptions, PlanError};
use oci_push::registry::{parse_reference, ReferenceError};

fn tar_with(entries: &[(&str, &[u8])]) -> Vec<u8> {
    let mut builder = tar::Builder::new(Vec::new());
    for (path, data) in entries {
        let mut header = tar::Header::new_gnu();
        header.set_size(data.len() as u64);
        header.set_cksum();
        builder.append_data(&mut header, path, *data).expect("append entry");
    }
    builder.finish().expect("finish tar");
    builder.into_inner().expect("take tar bytes")
}

#[test]
fn plan_from_oci_tarball() {
    let tar_bytes = tar_with(&[
        ("config.json", b"{\"os\":\"linux\"}"),
        ("layer.tar", b"hello world"),
    ]);
    let plan = plan_from_tar(&tar_bytes, &AssemblyOptions::standard()).unwrap();
    assert_eq!(plan.manifest.schema_version, 2);
    assert!(!plan.config_fallback_used);
    assert_eq!(plan.manifest.config.size, plan.config.data.len() as u64);
    assert_eq!(plan.manifest.layers.len(), 1);
    assert_eq!(plan.manifest.layers[0].size, 11);
    assert!(plan.manifest.config.digest.starts_with("sha256:"));
    assert!(plan.manifest.layers[0].digest.starts_with("sha256:"));
    assert_eq!(
        plan.manifest.layers[0].digest,
        "sha256:b94d27b9934d3e08a52e52d7da7dabfac484efe37a5380ee9088f7ace2efcde9"
    );
    assert_eq!(plan.layers[0].media_type, "application/vnd.oci.image.layer.v1.tar");
    assert_eq!(plan.config.media_type, "application/vnd.oci.image.config.v1+json");
}

#[test]
fn plan_prefers_last_config_in_tar() {
    let tar_bytes = tar_with(&[
        ("x/config.json", b"first"),
        ("layer1.tar", b"layer one"),
        ("notes.txt", b"ignored"),
        ("y/config.json", b"second"),
    ]);
    let plan = plan_from_tar(&tar_bytes, &AssemblyOptions::standard()).unwrap();
    assert_eq!(plan.config.data, b"second".to_vec());
    assert_eq!(plan.layers.len(), 1);
    assert_eq!(plan.layers[0].data, b"layer one".to_vec());
}

#[test]
fn empty_tar_plans_with_fallback_and_no_layers() {
    let tar_bytes = tar_with(&[]);
    let plan = plan_from_tar(&tar_bytes, &AssemblyOptions::standard()).unwrap();
    assert!(plan.config_fallback_used);
    assert_eq!(plan.config.data, b"{}".to_vec());
    assert_eq!(plan.manifest.layers.len(), 0);
}

#[test]
fn malformed_tar_is_an_archive_error() {
    let garbage = vec![0xffu8; 2048];
    let result = plan_from_tar(&garbage, &AssemblyOptions::standard());
    assert!(matches!(result, Err(PlanError::Archive(_))));
}

#[test]
fn plan_rejects_empty_layers_when_forbidden() {
    let tar_bytes = tar_with(&[("config.json", b"{\"os\":\"linux\"}")]);
    let options = AssemblyOptions { allow_empty_layers: false };
    let result = plan_from_tar(&tar_bytes, &options);
    assert!(matches!(result, Err(PlanError::NoLayers)));
}

#[test]
fn reference_parsing_accepts_valid_and_rejects_invalid() {
    assert!(parse_reference("localhost:5000/fake:latest").is_ok());
    assert!(parse_reference("registry.example.com/repo:tag").is_ok());
    assert!(matches!(parse_reference(""), Err(ReferenceError::Invalid)));
}
