use flashvm::builder::BuildStage;
use flashvm::config::CacheConfig;
use flashvm::error::VMError;
use flashvm::import::{ImportJob, ImportStage};
use flashvm::job::{Outcome, Request};
use flashvm::reference::{PathFacts, CANONICAL_IMAGE};
use flashvm::resolver::ImageResolver;
use flashvm::store::{container_name, image_in_listing};

fn exited(success: bool, stdout: &str, stderr: &str) -> Outcome {
    Outcome::Exited { success, stdout: stdout.to_string(), stderr: stderr.to_string() }
}

fn complete() -> PathFacts {
    PathFacts { exists: true, layout_marker: true, index: true, blobs: true }
}

fn resolver() -> ImageResolver {
    ImageResolver::new(CacheConfig::for_home(Some("/h")))
}

fn run_command(r: &Request) -> String {
    match r {
        Request::Capture(c) | Request::Run(c) | Request::Cleanup(c) => c.clone(),
        other => panic!("not a command: {:?}", other),
    }
}

#[test]
fn listing_is_matched_line_by_line() {
    let listing = "docker.io/library/alpine:latest\n  localhost/flashvm:python-basic \r\n";
    assert!(image_in_listing(listing, CANONICAL_IMAGE));
    assert!(!image_in_listing("localhost/flashvm:python-basic-2\n", CANONICAL_IMAGE));
    assert!(!image_in_listing("", CANONICAL_IMAGE));
    assert!(image_in_listing("localhost/flashvm:python-basic", CANONICAL_IMAGE));
}

#[test]
fn empty_name_needs_an_empty_line() {
    assert!(!image_in_listing("", ""));
    assert!(!image_in_listing("a\n", ""));
    assert!(image_in_listing("a\n\nb\n", ""));
}

#[test]
fn sentinel_fields_are_json_strings() {
    let mut job = resolver().import_embedded_now("1\"2");
    job.advance(exited(true, "", ""));
    job.advance(Outcome::Located(Some("/p\\q\"r".to_string())));
    job.advance(Outcome::Probed(complete()));
    job.advance(exited(true, "", ""));
    job.advance(exited(true, "", ""));
    match job.request() {
        Request::WriteFile { content, .. } => assert_eq!(
            content,
            "{\n  \"image\": \"localhost/flashvm:python-basic\",\n  \"oci_path\": \"/p\\\\q\\\"r\",\n  \"version\": \"1\\\"2\"\n}\n"
        ),
        other => panic!("unexpected {:?}", other),
    }
}

#[test]
fn container_name_is_trimmed_output() {
    assert_eq!(container_name("  abc-working-container\n"), Some("abc-working-container".to_string()));
    assert_eq!(container_name(" \n\t"), None);
}

#[test]
fn default_import_is_skipped_when_listed() {
    let mut job = resolver().import_embedded_now("0.1.0");
    assert_eq!(
        run_command(&job.request()),
        "buildah images --format '{{.Name}}:{{.Tag}}'"
    );
    job.advance(exited(true, "localhost/flashvm:python-basic\n", ""));
    match job.request() {
        Request::Finished(Ok(name)) => assert_eq!(name, CANONICAL_IMAGE),
        other => panic!("unexpected {:?}", other),
    }
}

#[test]
fn default_import_with_fast_copy_writes_sentinel() {
    let mut job = resolver().import_embedded_now("0.1.0");
    job.advance(exited(true, "other:latest\n", ""));
    assert!(matches!(job.request(), Request::LocateEmbedded));
    job.advance(Outcome::Located(Some("/pkg/data/oci".to_string())));
    assert!(matches!(job.request(), Request::Probe(ref d) if d == "/pkg/data/oci"));
    job.advance(Outcome::Probed(complete()));
    assert!(matches!(job.request(), Request::FindProgram(ref p) if p == "skopeo"));
    job.advance(exited(true, "/usr/bin/skopeo\n", ""));
    assert_eq!(
        run_command(&job.request()),
        "skopeo copy --insecure-policy 'oci:/pkg/data/oci:python-basic' 'containers-storage:localhost/flashvm:python-basic'"
    );
    job.advance(exited(true, "", ""));
    match job.request() {
        Request::WriteFile { dir, path, content } => {
            assert_eq!(dir, "/h/.cache/flashvm/state");
            assert_eq!(path, "/h/.cache/flashvm/state/embedded_import.json");
            assert_eq!(
                content,
                "{\n  \"image\": \"localhost/flashvm:python-basic\",\n  \"oci_path\": \"/pkg/data/oci\",\n  \"version\": \"0.1.0\"\n}\n"
            );
        }
        other => panic!("unexpected {:?}", other),
    }
    job.advance(Outcome::Written(Ok(())));
    assert!(matches!(job.stage, ImportStage::Done(Ok(_))));
}

#[test]
fn default_import_falls_back_to_container_commit() {
    let mut job = resolver().import_embedded_now("0.1.0");
    job.advance(exited(true, "", ""));
    job.advance(Outcome::Located(Some("/d".to_string())));
    job.advance(Outcome::Probed(complete()));
    job.advance(exited(false, "", ""));
    assert_eq!(run_command(&job.request()), "buildah from 'oci:/d:python-basic'");
    job.advance(exited(true, "ctr1\n", ""));
    assert_eq!(run_command(&job.request()), "buildah commit 'ctr1' 'localhost/flashvm:python-basic'");
    job.advance(exited(false, "", "no space"));
    assert_eq!(run_command(&job.request()), "buildah rm 'ctr1'");
    job.advance(exited(true, "", ""));
    match job.request() {
        Request::Finished(Err(VMError::ImageResolution(m))) => assert_eq!(m, "buildah commit failed"),
        other => panic!("unexpected {:?}", other),
    }
}

#[test]
fn default_import_failures() {
    let mut job = resolver().import_embedded_now("v");
    job.advance(exited(false, "", "denied"));
    match job.request() {
        Request::Finished(Err(VMError::Execution(m))) => {
            assert_eq!(m, "Failed to list images in containers-storage: denied")
        }
        other => panic!("unexpected {:?}", other),
    }
    let mut job = resolver().import_embedded_now("v");
    job.advance(exited(true, "", ""));
    job.advance(Outcome::Located(None));
    assert!(matches!(job.stage, ImportStage::Done(Err(VMError::ImageResolution(_)))));
    let mut job = resolver().import_embedded_now("v");
    job.advance(exited(true, "", ""));
    job.advance(Outcome::Located(Some("/d".to_string())));
    job.advance(Outcome::Probed(PathFacts { exists: true, layout_marker: true, index: false, blobs: true }));
    match job.stage {
        ImportStage::Done(Err(VMError::ImageResolution(m))) => assert!(m.contains("index.json")),
        other => panic!("unexpected {:?}", other),
    }
    let mut job = resolver().import_embedded_now("v");
    job.advance(Outcome::NotStarted("no buildah".to_string()));
    assert!(matches!(job.stage, ImportStage::Done(Err(VMError::Execution(_)))));
}

#[test]
fn embedded_listing_check() {
    let r = resolver();
    assert_eq!(r.embedded_is_imported(&exited(true, "localhost/flashvm:python-basic\n", "")), Ok(true));
    assert_eq!(r.embedded_is_imported(&exited(true, "x\n", "")), Ok(false));
    assert!(matches!(r.embedded_is_imported(&exited(false, "", "e")), Err(VMError::Execution(_))));
}

#[test]
fn import_job_accepts_only_matching_outcomes() {
    let job = resolver().import_embedded_now("v");
    assert!(job.accepts(&exited(true, "", "")));
    assert!(!job.accepts(&Outcome::Located(None)));
}

#[test]
fn empty_package_list_is_a_configuration_error() {
    let r = resolver().pip_install_into_image(None, &complete(), &vec![], None, None, None, "v");
    assert!(matches!(r, Err(VMError::VMConfiguration(_))));
}

#[test]
fn unresolvable_base_is_rejected() {
    let none = PathFacts { exists: false, layout_marker: false, index: false, blobs: false };
    let r = resolver().pip_install_into_image(Some("dir:/nope"), &none, &vec!["x".into()], None, None, None, "v");
    assert_eq!(r.unwrap_err(), VMError::ImageResolution("Could not resolve image reference: dir:/nope".into()));
}

#[test]
fn derived_tag_ignores_order_and_repeats() {
    let a = vec!["pandas".to_string(), "numpy==1.26".to_string()];
    let b = vec!["numpy==1.26".to_string(), "pandas".to_string(), "pandas".to_string()];
    let ja = resolver().pip_install_into_image(Some("alpine"), &complete(), &a, None, None, None, "v").unwrap();
    let jb = resolver().pip_install_into_image(Some("alpine"), &complete(), &b, None, None, None, "v").unwrap();
    assert_eq!(ja.target, jb.target);
    assert!(ja.target.starts_with("localhost/flashvm:python-pip-"));
    assert_eq!(ja.target.len(), "localhost/flashvm:python-pip-".len() + 16);
    let jc = resolver().pip_install_into_image(Some("alpine"), &complete(), &vec!["pandas".to_string()], None, None, None, "v").unwrap();
    assert_ne!(ja.target, jc.target);
}

#[test]
fn explicit_tag_is_used() {
    let j = resolver()
        .pip_install_into_image(Some("alpine"), &complete(), &vec!["x".into()], Some("mine"), None, None, "v")
        .unwrap();
    assert_eq!(j.target, "localhost/flashvm:mine");
    assert_eq!(j.base_ref, "alpine");
}

#[test]
fn install_script_quotes_arguments() {
    let j = resolver()
        .pip_install_into_image(
            None,
            &complete(),
            &vec!["numpy>=1".into(), "rich".into()],
            None,
            Some("https://pypi.example/simple"),
            None,
            "v",
        )
        .unwrap();
    assert_eq!(
        j.install_script,
        "env PIP_CONFIG_FILE=/dev/null PIP_ROOT_USER_ACTION=ignore python3 -m pip install --no-cache-dir --no-user --disable-pip-version-check --break-system-packages --index-url https://pypi.example/simple 'numpy>=1' rich"
    );
    assert_eq!(j.base_ref, "containers-storage:localhost/flashvm:python-basic");
    assert!(matches!(j.stage, BuildStage::PrepareBase(_)));
}

#[test]
fn build_removes_container_when_install_fails() {
    let mut j = resolver()
        .pip_install_into_image(Some("alpine"), &complete(), &vec!["x".into()], Some("t"), None, None, "v")
        .unwrap();
    assert_eq!(run_command(&j.request()), "buildah from 'alpine'");
    j.advance(exited(true, "c9\n", ""));
    let boot = run_command(&j.request());
    assert!(boot.starts_with("buildah run --user root 'c9' -- sh -lc '"));
    j.advance(exited(false, "", ""));
    assert_eq!(run_command(&j.request()), "buildah run --user root 'c9' -- sh -lc 'env PIP_CONFIG_FILE=/dev/null PIP_ROOT_USER_ACTION=ignore python3 -m pip install --no-cache-dir --no-user --disable-pip-version-check --break-system-packages x'");
    j.advance(exited(false, "", "boom"));
    assert_eq!(run_command(&j.request()), "buildah rm 'c9'");
    j.advance(exited(true, "", ""));
    match j.request() {
        Request::Finished(Err(VMError::Execution(m))) => assert_eq!(m, "pip install failed inside buildah run"),
        other => panic!("unexpected {:?}", other),
    }
}

#[test]
fn build_commits_then_removes_container() {
    let mut j = resolver()
        .pip_install_into_image(None, &complete(), &vec!["x".into()], Some("t"), None, None, "v")
        .unwrap();
    j.advance(exited(true, "localhost/flashvm:python-basic\n", ""));
    assert_eq!(run_command(&j.request()), "buildah from 'containers-storage:localhost/flashvm:python-basic'");
    j.advance(exited(true, "c1", ""));
    j.advance(exited(true, "", ""));
    j.advance(exited(true, "", ""));
    assert_eq!(run_command(&j.request()), "buildah commit 'c1' 'localhost/flashvm:t'");
    j.advance(exited(true, "", ""));
    assert_eq!(run_command(&j.request()), "buildah rm 'c1'");
    j.advance(exited(false, "", ""));
    match j.request() {
        Request::Finished(Ok(r)) => assert_eq!(r, "containers-storage:localhost/flashvm:t"),
        other => panic!("unexpected {:?}", other),
    }
}

#[test]
fn oci_import_uses_execution_errors() {
    let mut j = ImportJob::from_oci("oci:/x:y", "localhost/flashvm:imported-1");
    j.advance(exited(false, "", ""));
    j.advance(exited(false, "", "bad layout"));
    match j.stage {
        ImportStage::Done(Err(VMError::Execution(m))) => assert_eq!(m, "buildah from failed: bad layout"),
        other => panic!("unexpected {:?}", other),
    }
}
