use vstd::prelude::*;
use crate::error::VMError;

verus! {

/// A prepared image for the in-process backend: kernel and root filesystem
/// paths, with optional metadata.
#[derive(Debug, Clone)]
pub struct ImageHandle {
    pub kernel: String,
    pub rootfs_img: String,
    pub initrd: Option<String>,
    pub cache_key: Option<String>,
    pub base: Option<String>,
    pub packages: Option<Vec<String>>,
}

pub open spec fn is_embedded_base(base: Option<String>) -> bool {
    base matches Some(b) && b@ == "embedded"@
}

fn embedded_base(base: &Option<String>) -> (r: bool)
    ensures
        r == is_embedded_base(*base),
{
    match base {
        Some(b) => {
            let e = "embedded".to_owned();
            *b == e
        },
        None => false,
    }
}

impl ImageHandle {
    /// A handle from its fields: kernel and root filesystem are both
    /// required. Without them, an `embedded` base asks the caller to resolve
    /// the packaged asset paths; any other case reports the missing paths.
    pub fn from_fields(
        kernel: Option<String>,
        rootfs_img: Option<String>,
        initrd: Option<String>,
        cache_key: Option<String>,
        base: Option<String>,
        packages: Option<Vec<String>>,
    ) -> (r: Result<ImageHandle, VMError>)
        ensures
            r is Ok <==> kernel is Some && rootfs_img is Some,
            r matches Ok(h) ==> h.kernel == kernel->Some_0 && h.rootfs_img == rootfs_img->Some_0
                && h.initrd == initrd && h.cache_key == cache_key && h.base == base && h.packages
                == packages,
            r matches Err(e) ==> e is VMConfiguration && (is_embedded_base(base) ==> e.detail()
                == "base='embedded' requires the caller to resolve the packaged asset paths (kernel/rootfs_img) and send them in meta"@)
                && (!is_embedded_base(base) ==> e.detail() == "missing kernel/rootfs_img"@),
    {
        match (kernel, rootfs_img) {
            (Some(kernel), Some(rootfs_img)) => Ok(
                ImageHandle { kernel, rootfs_img, initrd, cache_key, base, packages },
            ),
            _ => if embedded_base(&base) {
                Err(
                    VMError::VMConfiguration(
                        "base='embedded' requires the caller to resolve the packaged asset paths (kernel/rootfs_img) and send them in meta".to_owned(),
                    ),
                )
            } else {
                Err(VMError::VMConfiguration("missing kernel/rootfs_img".to_owned()))
            },
        }
    }
}

/// Whether preparing an image with this metadata deserves the warning that
/// an `embedded` base with packages is for development only.
pub fn needs_dev_warning(base: &Option<String>, packages: &Option<Vec<String>>) -> (r: bool)
    ensures
        r == (is_embedded_base(*base) && (packages matches Some(p) && p@.len() > 0)),
{
    embedded_base(base) && match packages {
        Some(p) => p.len() > 0,
        None => false,
    }
}

/// Options of a run on the in-process backend.
#[derive(Debug, Clone)]
pub struct RunOptions {
    pub cpus: u8,
    pub mem_mb: u32,
    /// A positive timeout, if any.
    pub timeout_ms: Option<u64>,
    /// `diff`, `all`, `none` or `paths`.
    pub output_mode: String,
}

impl RunOptions {
    /// Options from the values given, each absent one (or one of the wrong
    /// type) as `None`: one CPU, 512 MB, no timeout, `diff` output; a zero
    /// timeout means none.
    pub fn from_values(
        cpus: Option<u8>,
        mem_mb: Option<u32>,
        timeout_ms: Option<u64>,
        output_mode: Option<String>,
    ) -> (r: RunOptions)
        ensures
            r.cpus == match cpus {
                Some(c) => c,
                None => 1u8,
            },
            r.mem_mb == match mem_mb {
                Some(m) => m,
                None => 512u32,
            },
            r.timeout_ms == match timeout_ms {
                Some(t) => if t > 0 {
                    Some(t)
                } else {
                    None
                },
                None => None,
            },
            r.output_mode@ == match output_mode {
                Some(o) => o@,
                None => "diff"@,
            },
    {
        RunOptions {
            cpus: match cpus {
                Some(c) => c,
                None => 1,
            },
            mem_mb: match mem_mb {
                Some(m) => m,
                None => 512,
            },
            timeout_ms: match timeout_ms {
                Some(t) => if t > 0 {
                    Some(t)
                } else {
                    None
                },
                None => None,
            },
            output_mode: match output_mode {
                Some(o) => o,
                None => "diff".to_owned(),
            },
        }
    }
}

/// The result of a run on the in-process backend.
#[derive(Debug, Clone)]
pub struct RunResult {
    pub stdout: String,
    pub stderr: String,
    pub exit_status: i32,
    pub outputs_dir: Option<String>,
}

} // verus!
