use flashvm::config::CacheConfig;
use flashvm::error::VMError;
use flashvm::quote::shell_escape;
use flashvm::reference::{probe_target, split_path_tag, PathFacts, CANONICAL_IMAGE};
use flashvm::resolver::ImageResolver;

fn resolver() -> ImageResolver {
    ImageResolver::new(CacheConfig::for_home(Some("/home/u")))
}

fn facts(exists: bool, layout_marker: bool, index: bool, blobs: bool) -> PathFacts {
    PathFacts { exists, layout_marker, index, blobs }
}

fn none() -> PathFacts {
    facts(false, false, false, false)
}

#[test]
fn default_reference_is_canonical_store_name() {
    let r = resolver().resolve_image_ref(None, &none()).unwrap();
    assert_eq!(r, CANONICAL_IMAGE);
    assert_eq!(r, "localhost/flashvm:python-basic");
}

#[test]
fn docker_reference_passes_unchanged() {
    let r = resolver().resolve_image_ref(Some("docker://python:3.12-slim"), &none());
    assert_eq!(r.unwrap(), "docker://python:3.12-slim");
}

#[test]
fn docker_reference_with_empty_name_is_rejected() {
    let r = resolver().resolve_image_ref(Some("docker://"), &none());
    assert_eq!(r, Err(VMError::ImageResolution("Docker image name cannot be empty".to_string())));
    let r = resolver().validate_docker_ref("python:3");
    assert!(matches!(r, Err(VMError::ImageResolution(_))));
}

#[test]
fn store_reference_and_bare_name_pass_unchanged() {
    let r = resolver().resolve_image_ref(Some("containers-storage:localhost/x:1"), &none());
    assert_eq!(r.unwrap(), "containers-storage:localhost/x:1");
    let r = resolver().resolve_image_ref(Some("alpine"), &none());
    assert_eq!(r.unwrap(), "alpine");
}

#[test]
fn oci_reference_with_complete_layout_resolves() {
    let f = facts(true, true, true, true);
    let r = resolver().resolve_image_ref(Some("oci:/data/img:v1"), &f);
    assert_eq!(r.unwrap(), "oci:/data/img:v1");
}

#[test]
fn oci_reference_names_each_missing_member() {
    let r = resolver().resolve_image_ref(Some("oci:/data/img:v1"), &facts(true, false, true, true));
    match r {
        Err(VMError::ImageResolution(m)) => {
            assert!(m.contains("oci-layout"));
            assert!(!m.contains("index.json"));
            assert!(m.contains("/data/img"));
            assert!(!m.contains("/data/img:v1"));
        }
        other => panic!("unexpected {:?}", other),
    }
    let r = resolver().resolve_image_ref(Some("oci:/data/img"), &facts(true, true, false, false));
    match r {
        Err(VMError::ImageResolution(m)) => {
            assert!(m.contains("index.json"));
            assert!(m.contains("blobs/sha256"));
            assert!(!m.contains("oci-layout"));
        }
        other => panic!("unexpected {:?}", other),
    }
    let r = resolver().resolve_image_ref(Some("oci:/data/img"), &facts(true, false, false, false));
    match r {
        Err(VMError::ImageResolution(m)) => {
            assert_eq!(m, "Invalid OCI layout in /data/img: missing oci-layout index.json blobs/sha256");
        }
        other => panic!("unexpected {:?}", other),
    }
}

#[test]
fn oci_reference_to_missing_path_is_rejected() {
    let r = resolver().resolve_image_ref(Some("oci:/nope:tag"), &none());
    match r {
        Err(VMError::ImageResolution(m)) => assert_eq!(m, "OCI path does not exist: /nope"),
        other => panic!("unexpected {:?}", other),
    }
}

#[test]
fn directory_and_archive_references_need_an_existing_path() {
    let present = facts(true, false, false, false);
    assert_eq!(resolver().resolve_image_ref(Some("dir:/imgs/a"), &present).unwrap(), "dir:/imgs/a");
    assert_eq!(
        resolver().resolve_image_ref(Some("oci-archive:/imgs/a.tar"), &present).unwrap(),
        "oci-archive:/imgs/a.tar"
    );
    let r = resolver().resolve_image_ref(Some("dir:/imgs/a"), &none());
    assert_eq!(
        r,
        Err(VMError::ImageResolution("Could not resolve image reference: dir:/imgs/a".to_string()))
    );
}

#[test]
fn probe_target_strips_scheme_and_tag() {
    assert_eq!(probe_target("oci:/data/img:v1"), Some("/data/img".to_string()));
    assert_eq!(probe_target("oci:/data/img"), Some("/data/img".to_string()));
    assert_eq!(probe_target("dir:/x/y"), Some("/x/y".to_string()));
    assert_eq!(probe_target("oci-archive:/a.tar:t"), Some("/a.tar".to_string()));
    assert_eq!(probe_target("docker://alpine"), None);
    assert_eq!(probe_target("alpine"), None);
}

#[test]
fn path_and_tag_split_at_last_colon() {
    assert_eq!(split_path_tag("/a:b:c"), ("/a:b".to_string(), "c".to_string()));
    assert_eq!(split_path_tag("/a"), ("/a".to_string(), "latest".to_string()));
}

#[test]
fn quoting_leaves_plain_words_alone() {
    assert_eq!(shell_escape("/work"), "/work");
    assert_eq!(shell_escape("localhost/flashvm:python-basic"), "localhost/flashvm:python-basic");
    assert_eq!(ImageResolver::sh_q("numpy==1.26"), "numpy==1.26");
    assert_eq!(shell_escape("a=b"), "'a=b'");
    assert_eq!(ImageResolver::sh_q("pkg[extra]"), "'pkg[extra]'");
}

#[test]
fn quoting_wraps_and_escapes_single_quotes() {
    assert_eq!(shell_escape("it's here"), "'it'\\''s here'");
    assert_eq!(ImageResolver::sh_q("a b"), "'a b'");
    assert_eq!(ImageResolver::sh_q("$(rm -rf /)"), "'$(rm -rf /)'");
    assert_eq!(shell_escape(""), "''");
    assert_eq!(ImageResolver::sh_q(""), "''");
}

#[test]
fn cache_lists_nothing_and_clears() {
    assert_eq!(resolver().list_cached_images().unwrap(), Vec::<String>::new());
    assert!(resolver().clear_cache().is_ok());
}

#[test]
fn quoting_keeps_control_characters_inside_quotes() {
    assert_eq!(shell_escape("a\nb\tc"), "'a\nb\tc'");
    assert_eq!(ImageResolver::sh_q("x;y|z&"), "'x;y|z&'");
    assert_eq!(ImageResolver::sh_q("''"), "''\\'''\\'''");
}
