use flashvm::error::VMError;
use flashvm::handles::{needs_dev_warning, ImageHandle, RunOptions};
use flashvm::reference::PathFacts;
use flashvm::vmm::{attach_devices, boot_cmdline, guest_memory_bytes, BlockSpec, DevicesCfg, VmLoop};
use flashvm::wheel::{embedded_layout_ref, layout_dir_of};

#[test]
fn boot_command_line_carries_code_length() {
    assert_eq!(
        boot_cmdline(12),
        "console=ttyS0 root=/dev/vda ro init=/sbin/init FLASHVM_MODE=run FLASHVM_CODE_LEN=12"
    );
    assert!(boot_cmdline(0).ends_with("FLASHVM_CODE_LEN=0"));
}

#[test]
fn guest_memory_in_bytes() {
    assert_eq!(guest_memory_bytes(512), Some(512 * 1024 * 1024));
    assert_eq!(guest_memory_bytes(0), Some(0));
}

#[test]
fn backend_stubs_succeed() {
    let cfg = DevicesCfg {
        console_stdio: true,
        rootfs: BlockSpec { path: "/r.img".into(), read_only: true },
        workspace: None,
    };
    assert!(attach_devices(&cfg).is_ok());
    let mut l = VmLoop::new().unwrap();
    assert_eq!(l.run_until_exit(Some(10)).unwrap(), 0);
}

#[test]
fn image_handle_needs_kernel_and_rootfs() {
    let h = ImageHandle::from_fields(Some("k".into()), Some("r".into()), None, None, None, None).unwrap();
    assert_eq!(h.kernel, "k");
    assert_eq!(h.rootfs_img, "r");
    let e = ImageHandle::from_fields(None, Some("r".into()), None, None, None, None).unwrap_err();
    assert_eq!(e, VMError::VMConfiguration("missing kernel/rootfs_img".into()));
    let e = ImageHandle::from_fields(None, None, None, None, Some("embedded".into()), None).unwrap_err();
    assert!(matches!(e, VMError::VMConfiguration(ref m) if m.starts_with("base='embedded'")));
}

#[test]
fn dev_warning_for_embedded_base_with_packages() {
    assert!(needs_dev_warning(&Some("embedded".into()), &Some(vec!["x".into()])));
    assert!(!needs_dev_warning(&Some("embedded".into()), &Some(vec![])));
    assert!(!needs_dev_warning(&Some("other".into()), &Some(vec!["x".into()])));
}

#[test]
fn run_options_defaults() {
    let o = RunOptions::from_values(None, None, Some(0), None);
    assert_eq!(o.cpus, 1);
    assert_eq!(o.mem_mb, 512);
    assert_eq!(o.timeout_ms, None);
    assert_eq!(o.output_mode, "diff");
    let o = RunOptions::from_values(Some(2), Some(64), Some(5), Some("all".into()));
    assert_eq!((o.cpus, o.mem_mb, o.timeout_ms, o.output_mode.as_str()), (2, 64, Some(5), "all"));
}

#[test]
fn embedded_layout_reference() {
    let ok = PathFacts { exists: true, layout_marker: true, index: true, blobs: true };
    let r = embedded_layout_ref("/site/flashvm/data/oci", &ok).unwrap();
    assert_eq!(r, "oci:/site/flashvm/data/oci:python-basic");
    assert_eq!(layout_dir_of(&r), Some("/site/flashvm/data/oci".to_string()));
    let bad = PathFacts { exists: true, layout_marker: true, index: false, blobs: true };
    let m = embedded_layout_ref("/d", &bad).unwrap_err();
    assert_eq!(m, "Invalid OCI structure at /d: oci-layout=true, index.json=false, blobs/sha256=true");
    assert_eq!(layout_dir_of("oci:/nocolon"), None);
    assert_eq!(layout_dir_of("dir:/a:b"), None);
}
