use vstd::prelude::*;
use crate::error::VMError;
use crate::text::{decimal, push_decimal};

verus! {

/// A block device backed by a host file.
#[derive(Debug, Clone)]
pub struct BlockSpec {
    pub path: String,
    pub read_only: bool,
}

/// The devices of an in-process virtual machine.
#[derive(Debug, Clone)]
pub struct DevicesCfg {
    pub console_stdio: bool,
    pub rootfs: BlockSpec,
    pub workspace: Option<BlockSpec>,
}

/// Attaches the configured devices. The in-process backend has no device
/// model yet, so there is nothing to attach and this always succeeds.
pub fn attach_devices(_cfg: &DevicesCfg) -> (r: Result<(), VMError>)
    ensures
        r is Ok,
{
    Ok(())
}

/// The vCPU run loop of the in-process backend.
#[derive(Debug, Clone, Copy)]
pub struct VmLoop;

impl VmLoop {
    pub fn new() -> (r: Result<VmLoop, VMError>)
        ensures
            r is Ok,
    {
        Ok(VmLoop)
    }

    /// Runs the guest until it exits. The loop is not implemented yet: it
    /// reports a clean exit at once.
    pub fn run_until_exit(&mut self, _timeout_ms: Option<u64>) -> (r: Result<i32, VMError>)
        ensures
            r matches Ok(code) && code == 0,
    {
        Ok(0)
    }
}

/// The guest kernel command line for a run of `code_len` bytes of code.
pub open spec fn boot_cmdline_text(code_len: nat) -> Seq<char> {
    "console=ttyS0 root=/dev/vda ro init=/sbin/init FLASHVM_MODE=run FLASHVM_CODE_LEN="@ + decimal(code_len)
}

pub fn boot_cmdline(code_len: usize) -> (r: String)
    ensures
        r@ == boot_cmdline_text(code_len as nat),
{
    let mut r = "console=ttyS0 root=/dev/vda ro init=/sbin/init FLASHVM_MODE=run FLASHVM_CODE_LEN=".to_owned();
    push_decimal(&mut r, code_len as u64);
    r
}

/// The guest memory size in bytes for `mem_mb` megabytes, if it fits in a
/// `usize`.
pub fn guest_memory_bytes(mem_mb: u32) -> (r: Option<usize>)
    ensures
        mem_mb as int * 1048576 <= usize::MAX ==> r == Some((mem_mb as int * 1048576) as usize),
        mem_mb as int * 1048576 > usize::MAX ==> r is None,
{
    let size: u64 = (mem_mb as u64) * 1048576;
    if size > usize::MAX as u64 {
        None
    } else {
        Some(size as usize)
    }
}

} // verus!
