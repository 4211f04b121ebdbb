use flashvm::config::{Artifact, CacheConfig, ExecutionResult, VMConfig};
use flashvm::error::VMError;

#[test]
fn default_config_values() {
    let c = VMConfig::default();
    assert!(c.image.is_none());
    assert_eq!(c.cpus, 1);
    assert_eq!(c.memory_mb, 512);
    assert_eq!(c.workdir, "/work");
    assert_eq!(c.timeout_ms, 30_000);
    assert!(!c.network);
    assert_eq!(c.python_args, vec!["-u".to_string()]);
    assert_eq!(c.max_bytes_inline, 1024 * 1024);
    assert!(c.validate().is_ok());
}

#[test]
fn workdir_must_be_one_segment_below_root() {
    for bad in ["/work/sub", "work", "/", "", "//", "/work/"] {
        let mut c = VMConfig::default();
        c.workdir = bad.to_string();
        assert!(matches!(c.validate(), Err(VMError::VMConfiguration(_))), "{}", bad);
    }
    for good in ["/work", "/w", "/data_1"] {
        let mut c = VMConfig::default();
        c.workdir = good.to_string();
        assert!(c.validate().is_ok(), "{}", good);
    }
}

#[test]
fn resource_limits_and_env_keys_are_checked() {
    let mut c = VMConfig::default();
    c.cpus = 0;
    assert!(matches!(c.validate(), Err(VMError::VMConfiguration(_))));
    let mut c = VMConfig::default();
    c.memory_mb = 0;
    assert!(matches!(c.validate(), Err(VMError::VMConfiguration(_))));
    let mut c = VMConfig::default();
    c.env = vec![("A".to_string(), "1".to_string()), ("A".to_string(), "2".to_string())];
    assert!(matches!(c.validate(), Err(VMError::VMConfiguration(_))));
    c.env = vec![("A".to_string(), "1".to_string()), ("B".to_string(), "2".to_string())];
    assert!(c.validate().is_ok());
}

#[test]
fn artifact_at_threshold_is_inlined() {
    let a = Artifact::new("/ws/out", "/ws/out/r.txt", 10, 10, Some(vec![7u8; 10]));
    assert_eq!(a.content, Some(vec![7u8; 10]));
    assert_eq!(a.guest_path, "out/r.txt");
    assert_eq!(a.host_path, "/ws/out/r.txt");
    assert_eq!(a.size_bytes, 10);
}

#[test]
fn artifact_one_byte_over_threshold_is_not_inlined() {
    let a = Artifact::new("/ws/out", "/ws/out/sub/r.bin", 11, 10, None);
    assert_eq!(a.content, None);
    assert_eq!(a.guest_path, "out/sub/r.bin");
    let b = Artifact::new("/ws/out", "/ws/out/r.bin", 11, 10, Some(vec![1u8; 11]));
    assert_eq!(b.content, None);
}

#[test]
fn artifact_outside_output_dir_keeps_its_path() {
    let a = Artifact::new("/ws/out", "/elsewhere/f", 1, 10, Some(vec![1]));
    assert_eq!(a.guest_path, "out//elsewhere/f");
}

#[test]
fn stderr_is_back_filled_from_stdout_on_failure() {
    let r = ExecutionResult::assemble("boom\n".into(), String::new(), 1, 5, vec![], "img".into());
    assert_eq!(r.stderr, "boom\n");
    assert_eq!(r.stdout, "boom\n");
    assert_eq!(r.exit_code, 1);
}

#[test]
fn stderr_is_kept_otherwise() {
    let r = ExecutionResult::assemble("out".into(), String::new(), 0, 5, vec![], "img".into());
    assert_eq!(r.stderr, "");
    let r = ExecutionResult::assemble("out".into(), "err".into(), 2, 5, vec![], "img".into());
    assert_eq!(r.stderr, "err");
    let r = ExecutionResult::assemble(String::new(), String::new(), 2, 5, vec![], "img".into());
    assert_eq!(r.stderr, "");
}

#[test]
fn cache_config_paths() {
    let c = CacheConfig::for_home(Some("/home/u"));
    assert_eq!(c.cache_dir, "/home/u/.cache/flashvm");
    assert_eq!(c.cache_ttl_seconds, 86400);
    assert_eq!(c.max_cache_size_mb, 1024);
    assert_eq!(c.sentinel_path(), "/home/u/.cache/flashvm/state/embedded_import.json");
    assert_eq!(CacheConfig::for_home(None).cache_dir, "/tmp/.cache/flashvm");
}

#[test]
fn error_description() {
    let e = VMError::Timeout("late".into());
    assert_eq!(e.describe(), "Timeout: late");
}
