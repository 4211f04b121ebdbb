use vstd::prelude::*;
use crate::error::VMError;
use crate::text::{chars_of, has_prefix, starts_with, suffix_from};

verus! {

/// Configuration of one sandboxed run.
#[derive(Debug, Clone)]
pub struct VMConfig {
    /// Image reference; `None` selects the embedded default image.
    pub image: Option<String>,
    pub cpus: u32,
    pub memory_mb: u32,
    /// Environment variables for the guest process; keys are unique.
    pub env: Vec<(String, String)>,
    /// Working directory in the guest: one segment below the root, e.g. `/work`.
    pub workdir: String,
    /// Wall-clock limit of the guest command, in milliseconds.
    pub timeout_ms: u64,
    pub network: bool,
    /// (host, guest) port pairs, forwarded only when `network` is set.
    pub ports: Vec<(u16, u16)>,
    /// Extra interpreter arguments, e.g. `-u`.
    pub python_args: Vec<String>,
    /// Artifacts of at most this many bytes are returned inline.
    pub max_bytes_inline: u64,
}

/// A path of exactly one segment below the root: `/` followed by at least
/// one character, none of them `/`.
pub open spec fn is_top_level_dir(w: Seq<char>) -> bool {
    &&& w.len() >= 2
    &&& w[0] == '/'
    &&& forall|i: int| 1 <= i < w.len() ==> #[trigger] w[i] != '/'
}

pub open spec fn keys_unique(env: Seq<(String, String)>) -> bool {
    forall|i: int, j: int| 0 <= i < j < env.len() ==> (#[trigger] env[i]).0@ != (#[trigger] env[j]).0@
}

pub open spec fn config_ok(c: VMConfig) -> bool {
    &&& is_top_level_dir(c.workdir@)
    &&& c.cpus > 0
    &&& c.memory_mb > 0
    &&& keys_unique(c.env@)
}

/// Whether `w` is one segment below the root.
pub fn top_level_dir(w: &str) -> (r: bool)
    ensures
        r == is_top_level_dir(w@),
{
    let v = chars_of(w);
    if v.len() < 2 || v[0] != '/' {
        return false;
    }
    let mut i: usize = 1;
    while i < v.len()
        invariant
            v@ == w@,
            1 <= i <= v.len(),
            forall|j: int| 1 <= j < i ==> #[trigger] v@[j] != '/',
        decreases v.len() - i,
    {
        if v[i] == '/' {
            return false;
        }
        i = i + 1;
    }
    true
}

fn env_keys_unique(env: &Vec<(String, String)>) -> (r: bool)
    ensures
        r == keys_unique(env@),
{
    let mut j: usize = 0;
    while j < env.len()
        invariant
            j <= env.len(),
            forall|a: int, b: int| 0 <= a < b < j ==> (#[trigger] env@[a]).0@ != (#[trigger] env@[b]).0@,
        decreases env.len() - j,
    {
        let mut i: usize = 0;
        while i < j
            invariant
                i <= j < env.len(),
                forall|a: int| 0 <= a < i ==> (#[trigger] env@[a]).0@ != env@[j as int].0@,
            decreases j - i,
        {
            if env[i].0 == env[j].0 {
                return false;
            }
            i = i + 1;
        }
        j = j + 1;
    }
    true
}

impl VMConfig {
    /// Checks the configuration before any resource is allocated: the
    /// workdir is one segment below the root, cpus and memory are positive,
    /// environment keys are unique. Any violation is a `VMConfiguration` error.
    pub fn validate(&self) -> (r: Result<(), VMError>)
        ensures
            r is Ok <==> config_ok(*self),
            r is Err ==> r->Err_0 is VMConfiguration,
    {
        if !top_level_dir(self.workdir.as_str()) {
            return Err(
                VMError::VMConfiguration(
                    "workdir must be a single top-level absolute path such as /work".to_owned(),
                ),
            );
        }
        if self.cpus == 0 {
            return Err(VMError::VMConfiguration("cpus must be at least 1".to_owned()));
        }
        if self.memory_mb == 0 {
            return Err(VMError::VMConfiguration("memory_mb must be at least 1".to_owned()));
        }
        if !env_keys_unique(&self.env) {
            return Err(VMError::VMConfiguration("environment keys must be unique".to_owned()));
        }
        Ok(())
    }
}

impl Default for VMConfig {
    /// One CPU, 512 MB, `/work`, 30 s, no network, `-u`, 1 MiB inline limit.
    fn default() -> (r: VMConfig)
        ensures
            r.image is None,
            r.cpus == 1,
            r.memory_mb == 512,
            r.env@.len() == 0,
            r.workdir@ == "/work"@,
            r.timeout_ms == 30_000,
            !r.network,
            r.ports@.len() == 0,
            r.python_args@.len() == 1,
            r.python_args@[0]@ == "-u"@,
            r.max_bytes_inline == 1024 * 1024,
    {
        VMConfig {
            image: None,
            cpus: 1,
            memory_mb: 512,
            env: Vec::new(),
            workdir: "/work".to_owned(),
            timeout_ms: 30_000,
            network: false,
            ports: Vec::new(),
            python_args: vec!["-u".to_owned()],
            max_bytes_inline: 1024 * 1024,
        }
    }
}

/// A host file copied into the guest's input directory.
#[derive(Debug, Clone)]
pub struct FileInput {
    pub host_path: String,
    /// Relative to the guest's input directory.
    pub guest_path: String,
}

/// A glob pattern, relative to the workspace's output directory.
#[derive(Debug, Clone)]
pub struct FileOutput {
    pub pattern: String,
}

/// A file that the guest left in the output directory.
#[derive(Debug, Clone)]
pub struct Artifact {
    /// `out/` followed by the path relative to the output directory.
    pub guest_path: String,
    pub host_path: String,
    pub size_bytes: u64,
    /// The file's bytes, present exactly when the size is within the inline limit.
    pub content: Option<Vec<u8>>,
}

/// Whether an artifact of `size` bytes is returned inline under `limit`.
pub open spec fn inline_allowed(size: u64, limit: u64) -> bool {
    size <= limit
}

/// `path` relative to `dir`: what follows `dir/`, or `path` itself when it
/// does not lie below `dir`.
pub open spec fn relative_to(path: Seq<char>, dir: Seq<char>) -> Seq<char> {
    let d = dir.push('/');
    if starts_with(path, d) {
        path.subrange(d.len() as int, path.len() as int)
    } else {
        path
    }
}

pub fn should_inline(size: u64, limit: u64) -> (r: bool)
    ensures
        r == inline_allowed(size, limit),
{
    size <= limit
}

impl Artifact {
    /// Records the file `host_path` found under `output_dir`. `data` is the
    /// file's content, which the caller reads only when `should_inline` says so.
    pub fn new(
        output_dir: &str,
        host_path: &str,
        size_bytes: u64,
        max_inline: u64,
        data: Option<Vec<u8>>,
    ) -> (r: Artifact)
        requires
            inline_allowed(size_bytes, max_inline) ==> data is Some,
        ensures
            r.guest_path@ == "out/"@ + relative_to(host_path@, output_dir@),
            r.host_path@ == host_path@,
            r.size_bytes == size_bytes,
            r.content is Some <==> inline_allowed(size_bytes, max_inline),
            r.content is Some ==> r.content == data,
    {
        let mut dir = output_dir.to_owned();
        dir.append("/");
        proof {
            reveal_strlit("/");
        }
        assert(dir@ == output_dir@.push('/'));
        let mut guest_path = "out/".to_owned();
        if has_prefix(host_path, dir.as_str()) {
            let rest = suffix_from(host_path, dir.as_str().unicode_len());
            guest_path.append(rest.as_str());
        } else {
            guest_path.append(host_path);
        }
        let content = if should_inline(size_bytes, max_inline) {
            data
        } else {
            None
        };
        Artifact { guest_path, host_path: host_path.to_owned(), size_bytes, content }
    }
}

/// What one run returns.
#[derive(Debug, Clone)]
pub struct ExecutionResult {
    pub stdout: String,
    pub stderr: String,
    pub exit_code: i32,
    pub execution_time_ms: u64,
    pub artifacts: Vec<Artifact>,
    pub image_used: String,
}

/// The stderr reported for a run: a failing run whose runtime folded both
/// streams into stdout reports that text as stderr too.
pub open spec fn reported_stderr(stdout: Seq<char>, stderr: Seq<char>, exit_code: i32) -> Seq<char> {
    if exit_code != 0 && stderr.len() == 0 && stdout.len() > 0 {
        stdout
    } else {
        stderr
    }
}

impl ExecutionResult {
    pub fn assemble(
        stdout: String,
        stderr: String,
        exit_code: i32,
        execution_time_ms: u64,
        artifacts: Vec<Artifact>,
        image_used: String,
    ) -> (r: ExecutionResult)
        ensures
            r.stdout@ == stdout@,
            r.stderr@ == reported_stderr(stdout@, stderr@, exit_code),
            r.exit_code == exit_code,
            r.execution_time_ms == execution_time_ms,
            r.artifacts@ == artifacts@,
            r.image_used@ == image_used@,
    {
        let stderr = if exit_code != 0 && stderr.as_str().unicode_len() == 0
            && stdout.as_str().unicode_len() > 0 {
            stdout.clone()
        } else {
            stderr
        };
        ExecutionResult { stdout, stderr, exit_code, execution_time_ms, artifacts, image_used }
    }
}

/// How guest output is captured (reserved).
#[derive(Debug, Clone, Copy, PartialEq, Eq)]
pub enum CaptureMode {
    Stdio,
    JsonLines,
    Both,
}

/// Where the local cache lives and how it is bounded.
#[derive(Debug, Clone)]
pub struct CacheConfig {
    pub cache_dir: String,
    pub cache_ttl_seconds: u64,
    pub max_cache_size_mb: u64,
}

impl CacheConfig {
    /// The cache under `<home>/.cache/flashvm`, with `/tmp` for a missing home;
    /// entries live a day, the cache holds up to 1024 MB.
    pub fn for_home(home: Option<&str>) -> (r: CacheConfig)
        ensures
            r.cache_dir@ == (match home {
                Some(h) => h@,
                None => "/tmp"@,
            }) + "/.cache/flashvm"@,
            r.cache_ttl_seconds == 24 * 3600,
            r.max_cache_size_mb == 1024,
    {
        let mut cache_dir = match home {
            Some(h) => h.to_owned(),
            None => "/tmp".to_owned(),
        };
        cache_dir.append("/.cache/flashvm");
        CacheConfig { cache_dir, cache_ttl_seconds: 24 * 3600, max_cache_size_mb: 1024 }
    }

    /// The directory that holds the import sentinel.
    pub fn state_dir(&self) -> (r: String)
        ensures
            r@ == self.cache_dir@ + "/state"@,
    {
        let mut r = self.cache_dir.clone();
        r.append("/state");
        r
    }

    /// The sentinel file recorded after the default image was imported.
    pub fn sentinel_path(&self) -> (r: String)
        ensures
            r@ == self.cache_dir@ + "/state"@ + "/embedded_import.json"@,
    {
        let mut r = self.state_dir();
        r.append("/embedded_import.json");
        r
    }
}

} // verus!
