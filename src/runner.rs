use vstd::prelude::*;
use crate::commands::views;
use crate::json::{json_list, json_pair_list, json_pairs, json_string_list, pair_views};
use crate::config::{config_ok, is_top_level_dir, FileInput, FileOutput, VMConfig};
use crate::error::VMError;
use crate::import::ImportJob;
use crate::quote::{quote_word, quoted};
use crate::reference::{rejection_detail, resolution, PathFacts, CANONICAL_IMAGE};
use crate::resolver::ImageResolver;
use crate::supervisor::{deadline_of, Supervisor};
use crate::text::{has_prefix, starts_with, suffix_from};

verus! {

/// The workspace subdirectory that holds input files.
pub const INPUT_DIR: &'static str = "in";
/// The workspace subdirectory the guest writes its outputs to.
pub const OUTPUT_DIR: &'static str = "out";
/// The workspace's scratch subdirectory.
pub const SCRATCH_DIR: &'static str = "tmp";
/// The workspace subdirectory that holds the entrypoint and its launcher.
pub const SCRIPTS_DIR: &'static str = "scripts";
/// The entrypoint's file name; the launcher runs it.
pub const MAIN_SCRIPT: &'static str = "main.py";
/// The launcher's file name.
pub const RUNNER_SCRIPT: &'static str = "run.py";

pub open spec fn is_lower_hex(c: char) -> bool {
    let v = c as u32;
    (48 <= v && v <= 57) || (97 <= v && v <= 102)
}

/// Relies on `uuid::Uuid::new_v4` and its `Display`: a random UUID in the
/// hyphenated lower-case form, 36 characters, the first eight of them
/// hexadecimal digits.
#[verifier::external_body]
fn random_uuid() -> (r: String)
    ensures
        r@.len() == 36,
        forall|i: int| 0 <= i < 8 ==> is_lower_hex(#[trigger] r@[i]),
{
    uuid::Uuid::new_v4().to_string()
}

/// A fresh random identifier of eight lower-case hexadecimal digits.
pub fn fresh_id() -> (r: String)
    ensures
        r@.len() == 8,
        forall|i: int| 0 <= i < 8 ==> is_lower_hex(#[trigger] r@[i]),
{
    let u = random_uuid();
    u.as_str().substring_char(0, 8).to_owned()
}

/// The launcher: applies the environment, runs the interpreter with its
/// extra arguments on the entrypoint, and exits with the interpreter's code.
/// The environment and the arguments are written as compact JSON arrays of
/// strings, which are Python literals of the same values: JSON's string
/// escapes are all Python string escapes with the same meaning.
pub open spec fn runner_text(env_json: Seq<char>, args_json: Seq<char>, main: Seq<char>) -> Seq<char> {
    "#!/usr/bin/env python3\nimport os, sys, subprocess\nENV=dict("@ + env_json + ")\nPY_ARGS="@
        + args_json
        + "\nos.environ.update({k:str(v) for k,v in ENV.items()})\ncmd=['/usr/bin/env','python3']+PY_ARGS+['/work/scripts/"@
        + main + "']\nres=subprocess.run(cmd)\nsys.exit(res.returncode)\n"@
}

/// The instance name for a run.
pub open spec fn vm_name_of(id: Seq<char>) -> Seq<char> {
    "flashvm-"@ + id
}

/// The throwaway store name an image held outside the store is imported under.
pub open spec fn import_name_of(id: Seq<char>) -> Seq<char> {
    "localhost/flashvm:imported-"@ + id
}

/// Whether the resolved image `image` lies outside the store, in an OCI
/// layout, a directory or an archive, and must be imported before use.
pub open spec fn needs_import(image: Seq<char>) -> bool {
    &&& !starts_with(image, "containers-storage:"@)
    &&& !starts_with(image, "docker://"@)
    &&& starts_with(image, "oci:"@) || starts_with(image, "dir:"@) || starts_with(image, "oci-archive:"@)
}

/// The name the runtime is given for the resolved image `image`: a store
/// reference without its scheme, a registry reference without its scheme
/// (the runtime pulls it), the throwaway name of an import, or a bare name.
pub open spec fn normalized_name(image: Seq<char>, id: Seq<char>) -> Seq<char> {
    if starts_with(image, "containers-storage:"@) {
        image.subrange("containers-storage:"@.len() as int, image.len() as int)
    } else if starts_with(image, "docker://"@) {
        image.subrange("docker://"@.len() as int, image.len() as int)
    } else if needs_import(image) {
        import_name_of(id)
    } else {
        image
    }
}

/// Creates and deletes a small instance, so the runtime pulls the image.
pub open spec fn pre_pull_text(vm: Seq<char>, image: Seq<char>) -> Seq<char> {
    "set -e\nkrunvm create --cpus 1 --mem 256 --workdir /work --name "@ + quoted(vm, false) + " "@
        + quoted(image, false) + " >/dev/null\n"@ + crate::supervisor::delete_command(vm) + "\n"@
}

/// Outside tools and hardware, as found on the host.
#[derive(Debug, Clone, Copy, PartialEq, Eq)]
pub struct ToolFacts {
    pub krunvm: bool,
    pub buildah: bool,
    /// Hardware virtualization is available.
    pub kvm: bool,
}

impl ToolFacts {
    pub open spec fn all_present(&self) -> bool {
        self.krunvm && self.buildah && self.kvm
    }
}

/// An image in the form the VM runtime takes, and the import that must run
/// first, if any.
#[derive(Debug)]
pub struct NormalizedImage {
    pub name: String,
    pub import: Option<ImportJob>,
}

/// Everything a run needs that does not depend on its workspace.
#[derive(Debug)]
pub struct ExecutionPlan {
    /// An import to complete before the instance is created.
    pub image_job: Option<ImportJob>,
    /// The store name the instance is created from.
    pub image: String,
    pub vm_name: String,
    /// The launcher's content, written to `scripts/run.py`.
    pub runner_script: String,
    pub supervisor: Supervisor,
}

/// Whether a run may start: tools present, configuration valid, image
/// reference resolvable.
pub open spec fn run_admitted(config: VMConfig, tools: ToolFacts, facts: PathFacts) -> bool {
    &&& tools.all_present()
    &&& config_ok(config)
    &&& config.image matches Some(img) ==> resolution(img@, facts) is Some
}

/// The message naming the first tool missing, in the order runtime, image
/// tool, hardware virtualization.
pub open spec fn missing_tool_detail(t: ToolFacts) -> Seq<char> {
    if !t.krunvm {
        "krunvm not found. Please install krunvm to continue."@
    } else if !t.buildah {
        "buildah not found. Required for rootless."@
    } else {
        "KVM not available. Ensure virtualization is enabled."@
    }
}

/// Runs guest code in microVM instances.
pub struct VMRunner {
    pub image_resolver: ImageResolver,
}

impl VMRunner {
    pub fn new(image_resolver: ImageResolver) -> (r: VMRunner)
        ensures
            r.image_resolver == image_resolver,
    {
        VMRunner { image_resolver }
    }

    /// The runtime, the image tool and hardware virtualization must all be
    /// present; the first one missing, in that order, is reported.
    pub fn check_dependencies(&self, tools: &ToolFacts) -> (r: Result<(), VMError>)
        ensures
            r is Ok <==> tools.all_present(),
            r is Err ==> r->Err_0 is MissingDependency && r->Err_0.detail() == missing_tool_detail(
                *tools,
            ),
    {
        if !tools.krunvm {
            return Err(
                VMError::MissingDependency(
                    "krunvm not found. Please install krunvm to continue.".to_owned(),
                ),
            );
        }
        if !tools.buildah {
            return Err(
                VMError::MissingDependency("buildah not found. Required for rootless.".to_owned()),
            );
        }
        if !tools.kvm {
            return Err(
                VMError::MissingDependency(
                    "KVM not available. Ensure virtualization is enabled.".to_owned(),
                ),
            );
        }
        Ok(())
    }

    /// The image in the form the runtime takes: a `containers-storage:` or
    /// `docker://` reference loses its scheme; an `oci:`, `dir:` or
    /// `oci-archive:` image is imported under a throwaway name built from
    /// `id`; a bare name is used as it is.
    pub fn normalize_image_for_krunvm(&self, image: &str, id: &str) -> (r: NormalizedImage)
        ensures
            r.name@ == normalized_name(image@, id@),
            r.import is Some <==> needs_import(image@),
            r.import matches Some(j) ==> !j.embedded && j.source@ == image@ && j.dest@
                == import_name_of(id@) && j.stage is FindSkopeo,
    {
        if has_prefix(image, "containers-storage:") {
            let name = suffix_from(image, "containers-storage:".unicode_len());
            return NormalizedImage { name, import: None };
        }
        if has_prefix(image, "docker://") {
            let name = suffix_from(image, "docker://".unicode_len());
            return NormalizedImage { name, import: None };
        }
        if has_prefix(image, "oci:") || has_prefix(image, "dir:") || has_prefix(image, "oci-archive:") {
            let mut name = "localhost/flashvm:imported-".to_owned();
            name.append(id);
            let job = self.import_oci_to_storage(image, name.as_str());
            return NormalizedImage { name, import: Some(job) };
        }
        NormalizedImage { name: image.to_owned(), import: None }
    }

    /// The job that imports the image `oci_ref` (an `oci:`, `dir:` or
    /// `oci-archive:` reference) into the store as `dest_name`.
    pub fn import_oci_to_storage(&self, oci_ref: &str, dest_name: &str) -> (r: ImportJob)
        ensures
            !r.embedded,
            r.source@ == oci_ref@,
            r.dest@ == dest_name@,
            r.stage is FindSkopeo,
    {
        ImportJob::from_oci(oci_ref, dest_name)
    }

    /// The launcher script for `config`, running the entrypoint `main_script`.
    pub fn create_guest_runner(&self, config: &VMConfig, main_script: &str) -> (r: Result<
        String,
        VMError,
    >)
        ensures
            r is Ok,
            r->Ok_0@ == runner_text(
                json_pair_list(pair_views(config.env@)),
                json_string_list(views(config.python_args@)),
                main_script@,
            ),
    {
        let env_json = json_pairs(&config.env);
        let args_json = json_list(&config.python_args);
        let mut r = "#!/usr/bin/env python3\nimport os, sys, subprocess\nENV=dict(".to_owned();
        r.append(env_json.as_str());
        r.append(")\nPY_ARGS=");
        r.append(args_json.as_str());
        r.append("\nos.environ.update({k:str(v) for k,v in ENV.items()})\ncmd=['/usr/bin/env','python3']+PY_ARGS+['/work/scripts/");
        r.append(main_script);
        r.append("']\nres=subprocess.run(cmd)\nsys.exit(res.returncode)\n");
        Ok(r)
    }

    /// Plans a run with the identifier `id` for its instance and image
    /// names. Missing tools, then an invalid configuration, then an
    /// unresolvable image are reported before anything is allocated.
    /// `facts` describe the path of `probe_target` for `config.image`.
    pub fn plan_with_id(
        &self,
        config: &VMConfig,
        tools: &ToolFacts,
        facts: &PathFacts,
        version: &str,
        id: &str,
    ) -> (r: Result<ExecutionPlan, VMError>)
        ensures
            !tools.all_present() ==> (r matches Err(e) && e is MissingDependency),
            tools.all_present() && !config_ok(*config) ==> (r matches Err(e) && e is VMConfiguration),
            tools.all_present() && config_ok(*config) && !run_admitted(*config, *tools, *facts) ==> (
            r matches Err(e) && e is ImageResolution),
            r is Ok <==> run_admitted(*config, *tools, *facts),
            !tools.all_present() ==> (r matches Err(e) && e.detail() == missing_tool_detail(*tools)),
            tools.all_present() && config_ok(*config) ==> (r matches Err(e) ==> config.image matches Some(
                img,
            ) && e.detail() == rejection_detail(img@, *facts)),
            r matches Ok(p) ==> {
                &&& p.vm_name@ == vm_name_of(id@)
                &&& p.supervisor.deadline_ms == deadline_of(config.timeout_ms)
                &&& !p.supervisor.timed_out
                &&& p.runner_script@ == runner_text(
                    json_pair_list(pair_views(config.env@)),
                    json_string_list(views(config.python_args@)),
                    MAIN_SCRIPT@,
                )
                &&& config.image is None ==> p.image@ == CANONICAL_IMAGE@
                &&& config.image matches Some(img) ==> p.image@ == normalized_name(
                    resolution(img@, *facts)->Some_0,
                    id@,
                )
                &&& config.image matches Some(img) ==> (p.image_job is Some <==> needs_import(
                    resolution(img@, *facts)->Some_0,
                ))
                &&& config.image is None ==> (p.image_job matches Some(j) && j.embedded
                    && j.stage is ListImages)
            },
    {
        match self.check_dependencies(tools) {
            Err(e) => {
                return Err(e);
            },
            Ok(()) => {},
        }
        match config.validate() {
            Err(e) => {
                return Err(e);
            },
            Ok(()) => {},
        }
        let (image, image_job) = match &config.image {
            None => {
                proof {
                    reveal_strlit("containers-storage:");
                    reveal_strlit("oci:");
                    reveal_strlit("localhost/flashvm:python-basic");
                }
                let job = self.image_resolver.import_embedded_now(version);
                (CANONICAL_IMAGE.to_owned(), Some(job))
            },
            Some(img) => {
                let resolved = match self.image_resolver.validate_image_ref(img.as_str(), facts) {
                    Err(e) => {
                        return Err(e);
                    },
                    Ok(s) => s,
                };
                let n = self.normalize_image_for_krunvm(resolved.as_str(), id);
                (n.name, n.import)
            },
        };
        let runner_script = match self.create_guest_runner(config, MAIN_SCRIPT) {
            Err(e) => {
                return Err(e);
            },
            Ok(s) => s,
        };
        let mut vm_name = "flashvm-".to_owned();
        vm_name.append(id);
        Ok(
            ExecutionPlan {
                image_job,
                image,
                vm_name,
                runner_script,
                supervisor: Supervisor::new(config.timeout_ms),
            },
        )
    }

    /// Plans a run of `code` (see `plan_with_id`), with a fresh random
    /// identifier. The code, inputs and expected outputs are used by the
    /// caller when it builds the workspace and collects artifacts.
    pub fn execute_python_code(
        &self,
        code: &str,
        config: &VMConfig,
        files_in: &Vec<FileInput>,
        expect: &Vec<FileOutput>,
        tools: &ToolFacts,
        facts: &PathFacts,
        version: &str,
    ) -> (r: Result<ExecutionPlan, VMError>)
        ensures
            !tools.all_present() ==> (r matches Err(e) && e is MissingDependency),
            tools.all_present() && !config_ok(*config) ==> (r matches Err(e) && e is VMConfiguration),
            tools.all_present() && config_ok(*config) && !run_admitted(*config, *tools, *facts) ==> (
            r matches Err(e) && e is ImageResolution),
            r is Ok <==> run_admitted(*config, *tools, *facts),
            !tools.all_present() ==> (r matches Err(e) && e.detail() == missing_tool_detail(*tools)),
            tools.all_present() && config_ok(*config) ==> (r matches Err(e) ==> config.image matches Some(
                img,
            ) && e.detail() == rejection_detail(img@, *facts)),
            r matches Ok(p) ==> {
                &&& p.vm_name@.len() == "flashvm-"@.len() + 8
                &&& p.vm_name@.subrange(0, "flashvm-"@.len() as int) == "flashvm-"@
                &&& forall|i: int|
                    "flashvm-"@.len() <= i < p.vm_name@.len() ==> is_lower_hex(#[trigger] p.vm_name@[i])
                &&& p.supervisor.deadline_ms == deadline_of(config.timeout_ms)
                &&& !p.supervisor.timed_out
                &&& p.runner_script@ == runner_text(
                    json_pair_list(pair_views(config.env@)),
                    json_string_list(views(config.python_args@)),
                    MAIN_SCRIPT@,
                )
                &&& config.image is None ==> p.image@ == CANONICAL_IMAGE@
                &&& config.image is None ==> (p.image_job matches Some(j) && j.embedded
                    && j.stage is ListImages)
            },
    {
        let id = fresh_id();
        let r = self.plan_with_id(config, tools, facts, version, id.as_str());
        proof {
            if r is Ok {
                let v = r->Ok_0.vm_name@;
                assert(v.subrange(0, "flashvm-"@.len() as int) == "flashvm-"@);
                assert forall|i: int| "flashvm-"@.len() <= i < v.len() implies is_lower_hex(
                    #[trigger] v[i],
                ) by {
                    assert(v[i] == id@[i - "flashvm-"@.len()]);
                }
            }
        }
        r
    }

    /// The pre-pull script for `image_ref`, resolved with `facts`, and the
    /// import to run before it, if any.
    pub fn pre_pull_image(&self, image_ref: &str, facts: &PathFacts, id: &str) -> (r: Result<
        (String, Option<ImportJob>),
        VMError,
    >)
        ensures
            r is Ok <==> resolution(image_ref@, *facts) is Some,
            r is Err ==> r->Err_0 is ImageResolution && r->Err_0.detail() == rejection_detail(
                image_ref@,
                *facts,
            ),
            r matches Ok((script, job)) ==> script@ == pre_pull_text(
                "prepull-"@ + id@,
                normalized_name(resolution(image_ref@, *facts)->Some_0, id@),
            ) && (job is Some <==> needs_import(resolution(image_ref@, *facts)->Some_0)),
    {
        let resolved = match self.image_resolver.validate_image_ref(image_ref, facts) {
            Err(e) => {
                return Err(e);
            },
            Ok(s) => s,
        };
        let n = self.normalize_image_for_krunvm(resolved.as_str(), id);
        let mut vm = "prepull-".to_owned();
        vm.append(id);
        let mut script = "set -e\nkrunvm create --cpus 1 --mem 256 --workdir /work --name ".to_owned();
        script.append(quote_word(vm.as_str(), false).as_str());
        script.append(" ");
        script.append(quote_word(n.name.as_str(), false).as_str());
        script.append(" >/dev/null\n");
        script.append(crate::supervisor::delete_instance(vm.as_str()).as_str());
        script.append("\n");
        Ok((script, n.import))
    }
}

/// A workdir that is not exactly one segment below the root keeps a run
/// from being admitted, so it is rejected before any workspace exists.
pub proof fn law_workdir_checked_first(config: VMConfig, tools: ToolFacts, facts: PathFacts)
    requires
        !is_top_level_dir(config.workdir@),
    ensures
        !run_admitted(config, tools, facts),
{
}

} // verus!
