use flashvm::config::{CacheConfig, ExecutionResult, VMConfig};
use flashvm::error::VMError;
use flashvm::reference::PathFacts;
use flashvm::resolver::ImageResolver;
use flashvm::runner::{ToolFacts, VMRunner};
use flashvm::supervisor::{
    control_script, delete_instance, hard_deadline, needs_extra_cleanup, Observation, Supervisor,
    Verdict, POLL_INTERVAL_MS, TIMEOUT_EXIT_CODE,
};

fn runner() -> VMRunner {
    VMRunner::new(ImageResolver::new(CacheConfig::for_home(Some("/h"))))
}

fn tools() -> ToolFacts {
    ToolFacts { krunvm: true, buildah: true, kvm: true }
}

fn no_facts() -> PathFacts {
    PathFacts { exists: false, layout_marker: false, index: false, blobs: false }
}

#[test]
fn deadline_adds_grace_and_saturates() {
    assert_eq!(hard_deadline(30_000), 32_000);
    assert_eq!(hard_deadline(u64::MAX), u64::MAX);
}

#[test]
fn never_exiting_command_is_killed_at_deadline() {
    let mut s = Supervisor::new(1_000);
    assert_eq!(s.observe(Observation::Running { elapsed_ms: 0 }), Verdict::Wait(POLL_INTERVAL_MS));
    assert_eq!(s.observe(Observation::Running { elapsed_ms: 2_999 }), Verdict::Wait(25));
    assert_eq!(s.observe(Observation::Running { elapsed_ms: 3_000 }), Verdict::Kill);
    assert!(s.timed_out);
    let v = s.observe(Observation::Exited { code: None, success: false });
    assert_eq!(v, Verdict::Finish { exit_code: TIMEOUT_EXIT_CODE, success: false, timed_out: true });
    assert_eq!(TIMEOUT_EXIT_CODE, 124);
}

#[test]
fn normal_exit_reports_its_code() {
    let mut s = Supervisor::new(1_000);
    let v = s.observe(Observation::Exited { code: Some(3), success: false });
    assert_eq!(v, Verdict::Finish { exit_code: 3, success: false, timed_out: false });
    let v = s.observe(Observation::Exited { code: None, success: false });
    assert_eq!(v, Verdict::Finish { exit_code: -1, success: false, timed_out: false });
}

#[test]
fn extra_cleanup_after_timeout_or_failure() {
    assert!(needs_extra_cleanup(true, true));
    assert!(needs_extra_cleanup(false, false));
    assert!(!needs_extra_cleanup(false, true));
}

#[test]
fn control_script_text() {
    let mut c = VMConfig::default();
    c.network = true;
    c.ports = vec![(8080, 80), (2, 3)];
    let s = control_script(&c, "flashvm-0123abcd", "/tmp/ws", "localhost/flashvm:python-basic");
    assert_eq!(
        s,
        "set -e\n\
krunvm create --cpus 1 --mem 512 --workdir /work --name flashvm-0123abcd --volume /tmp/ws:/work --port 8080:80 --port 2:3 localhost/flashvm:python-basic >/dev/null\n\
set +e\ntries=0\nec=1\nwhile [ $tries -lt 3 ]; do\n\
krunvm start flashvm-0123abcd /usr/bin/env python3 /work/scripts/run.py\n\
ec=$?\n[ $ec -eq 0 ] && break\ntries=$((tries+1))\nsleep 0.15\ndone\nset -e\n\
krunvm delete -f flashvm-0123abcd >/dev/null 2>&1 || krunvm delete flashvm-0123abcd >/dev/null 2>&1 || true\n\
exit $ec\n"
    );
    c.network = false;
    let s = control_script(&c, "vm", "/tmp/ws", "img");
    assert!(!s.contains("--port"));
}

#[test]
fn delete_command_text() {
    assert_eq!(
        delete_instance("vm 1"),
        "krunvm delete -f 'vm 1' >/dev/null 2>&1 || krunvm delete 'vm 1' >/dev/null 2>&1 || true"
    );
}

#[test]
fn missing_tools_fail_first() {
    let r = runner().plan_with_id(&VMConfig::default(), &ToolFacts { krunvm: false, buildah: true, kvm: true }, &no_facts(), "v", "abcd0123");
    assert!(matches!(r, Err(VMError::MissingDependency(ref m)) if m.contains("krunvm")));
    let r = runner().plan_with_id(&VMConfig::default(), &ToolFacts { krunvm: true, buildah: true, kvm: false }, &no_facts(), "v", "abcd0123");
    assert!(matches!(r, Err(VMError::MissingDependency(ref m)) if m.contains("KVM")));
    let r = runner().check_dependencies(&ToolFacts { krunvm: true, buildah: false, kvm: false });
    assert_eq!(r, Err(VMError::MissingDependency("buildah not found. Required for rootless.".into())));
}

#[test]
fn bad_workdir_is_rejected_before_planning() {
    for bad in ["/work/sub", "work", "/"] {
        let mut c = VMConfig::default();
        c.workdir = bad.to_string();
        let r = runner().plan_with_id(&c, &tools(), &no_facts(), "v", "abcd0123");
        assert!(matches!(r, Err(VMError::VMConfiguration(_))), "{}", bad);
    }
}

#[test]
fn plan_for_default_image() {
    let p = runner().plan_with_id(&VMConfig::default(), &tools(), &no_facts(), "v", "abcd0123").unwrap();
    assert_eq!(p.vm_name, "flashvm-abcd0123");
    assert_eq!(p.image, "localhost/flashvm:python-basic");
    assert!(p.image_job.is_some());
    assert_eq!(p.supervisor.deadline_ms, 32_000);
    assert_eq!(
        p.runner_script,
        "#!/usr/bin/env python3\nimport os, sys, subprocess\nENV=dict([])\nPY_ARGS=[\"-u\"]\nos.environ.update({k:str(v) for k,v in ENV.items()})\ncmd=['/usr/bin/env','python3']+PY_ARGS+['/work/scripts/main.py']\nres=subprocess.run(cmd)\nsys.exit(res.returncode)\n"
    );
}

#[test]
fn runner_script_carries_environment() {
    let mut c = VMConfig::default();
    c.env = vec![("A".to_string(), "x\"y".to_string())];
    let s = runner().create_guest_runner(&c, "main.py").unwrap();
    assert!(s.contains("ENV=dict([[\"A\",\"x\\\"y\"]])\n"));
    c.python_args = vec!["-c".to_string(), "print('''a''')\n".to_string()];
    let s = runner().create_guest_runner(&c, "main.py").unwrap();
    assert!(s.contains("PY_ARGS=[\"-c\",\"print('''a''')\\n\"]\n"));
}

#[test]
fn oci_image_is_imported_under_a_throwaway_name() {
    let mut c = VMConfig::default();
    c.image = Some("oci:/imgs/a:v2".to_string());
    let f = PathFacts { exists: true, layout_marker: true, index: true, blobs: true };
    let p = runner().plan_with_id(&c, &tools(), &f, "v", "0000ffff").unwrap();
    assert_eq!(p.image, "localhost/flashvm:imported-0000ffff");
    let job = p.image_job.unwrap();
    assert_eq!(job.source, "oci:/imgs/a:v2");
    assert_eq!(job.dest, "localhost/flashvm:imported-0000ffff");
}

#[test]
fn store_reference_loses_its_scheme() {
    let n = runner().normalize_image_for_krunvm("containers-storage:localhost/x:1", "id");
    assert_eq!(n.name, "localhost/x:1");
    assert!(n.import.is_none());
    let n = runner().normalize_image_for_krunvm("alpine", "id");
    assert_eq!(n.name, "alpine");
    let n = runner().normalize_image_for_krunvm("docker://python:3", "id");
    assert_eq!(n.name, "python:3");
    assert!(n.import.is_none());
    for r in ["dir:/imgs/a", "oci-archive:/a.tar"] {
        let n = runner().normalize_image_for_krunvm(r, "0a0a0a0a");
        assert_eq!(n.name, "localhost/flashvm:imported-0a0a0a0a");
        assert_eq!(n.import.unwrap().source, r);
    }
}

#[test]
fn random_plan_uses_eight_hex_digits() {
    let p = runner()
        .execute_python_code("print(1)", &VMConfig::default(), &vec![], &vec![], &tools(), &no_facts(), "v")
        .unwrap();
    assert_eq!(p.vm_name.len(), "flashvm-".len() + 8);
    assert!(p.vm_name["flashvm-".len()..].chars().all(|c| c.is_ascii_hexdigit() && !c.is_ascii_uppercase()));
}

#[test]
fn pre_pull_script() {
    let (s, job) = runner().pre_pull_image("containers-storage:localhost/x:1", &no_facts(), "ab").unwrap();
    assert!(job.is_none());
    assert_eq!(
        s,
        "set -e\nkrunvm create --cpus 1 --mem 256 --workdir /work --name prepull-ab localhost/x:1 >/dev/null\nkrunvm delete -f prepull-ab >/dev/null 2>&1 || krunvm delete prepull-ab >/dev/null 2>&1 || true\n"
    );
}

#[test]
fn hello_run_with_default_image_and_config() {
    // The run itself needs a VM runtime; its reported outcome is replayed here.
    let p = runner()
        .execute_python_code("print(\"hi\")", &VMConfig::default(), &vec![], &vec![], &tools(), &no_facts(), "v")
        .unwrap();
    let mut s = p.supervisor;
    assert_eq!(s.observe(Observation::Running { elapsed_ms: 10 }), Verdict::Wait(25));
    let v = s.observe(Observation::Exited { code: Some(0), success: true });
    let (code, ok, timed_out) = match v {
        Verdict::Finish { exit_code, success, timed_out } => (exit_code, success, timed_out),
        other => panic!("unexpected {:?}", other),
    };
    assert!(!needs_extra_cleanup(timed_out, ok));
    let r = ExecutionResult::assemble("hi\n".to_string(), String::new(), code, 800, vec![], p.image.clone());
    assert_eq!(r.exit_code, 0);
    assert!(r.stdout.contains("hi\n"));
    assert!(r.artifacts.is_empty());
    assert_eq!(r.image_used, "localhost/flashvm:python-basic");
}
