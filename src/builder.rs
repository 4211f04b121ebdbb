use vstd::prelude::*;
use crate::commands::{
    bootstrap, bootstrap_script, buildah_commit, buildah_from, buildah_rm, buildah_run_as_root,
    commit_command, from_command, opt_view, pip_command, pip_install, remove_command,
    run_as_root_command, views,
};
use crate::error::VMError;
use crate::import::{copy_error, copy_result, fits, import_step, ImportJob, ImportStage};
use crate::job::{failure, is_failure, not_started_detail, not_started_error, Outcome, Request};
use crate::packages::{canonical_packages, lemma_sorted_unique, same_items, strictly_sorted};
use crate::reference::{rejection_detail, resolution, PathFacts, CANONICAL_IMAGE};
use crate::resolver::ImageResolver;
use crate::store::{container_name, image_in_listing, listed};
use crate::text::{hex_fixed, push_hex16, trim};

verus! {

/// The digest of a package list.
pub uninterp spec fn packages_digest(packages: Seq<Seq<char>>) -> u64;

/// Relies on std's `DefaultHasher`: `DefaultHasher::new()` starts every
/// hasher from the same fixed keys, so the digest of a list depends on the
/// list alone.
#[verifier::external_body]
fn digest(packages: &Vec<String>) -> (h: u64)
    ensures
        h == packages_digest(views(packages@)),
{
    let mut hasher = std::collections::hash_map::DefaultHasher::new();
    std::hash::Hash::hash(packages, &mut hasher);
    std::hash::Hasher::finish(&hasher)
}

/// The tag derived from a canonical package list.
pub open spec fn derived_tag(canonical: Seq<Seq<char>>) -> Seq<char> {
    "python-pip-"@ + hex_fixed(packages_digest(canonical) as nat, 16)
}

/// `tag` is the tag derived from the items of `packages`: the digest of
/// those items sorted and without repeats.
pub open spec fn tag_of_packages(packages: Seq<Seq<char>>, tag: Seq<char>) -> bool {
    exists|c: Seq<Seq<char>>|
        strictly_sorted(c) && same_items(packages, c) && tag == #[trigger] derived_tag(c)
}

/// The tag for an image built from `packages`: `tag` when given, else one
/// derived from the set of packages.
pub fn target_tag(packages: &Vec<String>, tag: Option<&str>) -> (r: String)
    ensures
        tag is Some ==> r@ == tag->Some_0@,
        tag is None ==> tag_of_packages(views(packages@), r@),
{
    match tag {
        Some(t) => t.to_owned(),
        None => {
            let canonical = canonical_packages(packages);
            let h = digest(&canonical);
            let mut r = "python-pip-".to_owned();
            push_hex16(&mut r, h);
            assert(r@ == derived_tag(views(canonical@)));
            r
        },
    }
}

/// Deterministic tagging: package lists with the same items, in whatever
/// order and with whatever repeats, get the same derived tag.
pub proof fn law_tag_ignores_order(
    xs: Seq<Seq<char>>,
    ys: Seq<Seq<char>>,
    t1: Seq<char>,
    t2: Seq<char>,
)
    requires
        same_items(xs, ys),
        tag_of_packages(xs, t1),
        tag_of_packages(ys, t2),
    ensures
        t1 == t2,
{
    let c1 = choose|c: Seq<Seq<char>>|
        strictly_sorted(c) && same_items(xs, c) && t1 == #[trigger] derived_tag(c);
    let c2 = choose|c: Seq<Seq<char>>|
        strictly_sorted(c) && same_items(ys, c) && t2 == #[trigger] derived_tag(c);
    lemma_sorted_unique(c1, c2);
}

/// Where a build job stands; each stage names the request it waits on.
#[derive(Debug)]
pub enum BuildStage {
    /// Importing the embedded default image, the base.
    PrepareBase(ImportJob),
    /// Instantiating the working container from the base.
    From,
    /// Making sure the installer exists in the container (best effort).
    Bootstrap { container: String },
    /// Installing the packages as root.
    Install { container: String },
    /// Committing the container as the target image.
    Commit { container: String },
    /// Removing the container; `failure` is reported after it, if any.
    Remove { container: String, failure: Option<VMError> },
    /// Over: the new image's reference, or the error.
    Done(Result<String, VMError>),
}

/// Derives a tagged image from a base by installing packages into it.
#[derive(Debug)]
pub struct BuildJob {
    /// The image the working container is instantiated from.
    pub base_ref: String,
    /// The install script run as root in the container.
    pub install_script: String,
    /// The store name of the new image.
    pub target: String,
    pub stage: BuildStage,
}

/// Stages that hold a working container which must still be removed.
pub open spec fn holds_container(s: BuildStage) -> bool {
    s is Bootstrap || s is Install || s is Commit
}

pub open spec fn container_of(s: BuildStage) -> Seq<char> {
    match s {
        BuildStage::Bootstrap { container } => container@,
        BuildStage::Install { container } => container@,
        BuildStage::Commit { container } => container@,
        BuildStage::Remove { container, .. } => container@,
        _ => Seq::empty(),
    }
}

pub open spec fn build_fits(s: BuildStage, o: Outcome) -> bool {
    match s {
        BuildStage::PrepareBase(ij) => fits(ij.stage, o) && !(ij.stage is Done),
        BuildStage::From => o is Exited || o is NotStarted,
        BuildStage::Install { .. } => o is Exited || o is NotStarted,
        BuildStage::Commit { .. } => o is Exited || o is NotStarted,
        _ => true,
    }
}

/// What a finished base import leads to.
pub open spec fn after_base(k: ImportJob, n: BuildStage) -> bool {
    match k.stage {
        ImportStage::Done(Ok(_)) => n is From,
        ImportStage::Done(Err(e)) => n == BuildStage::Done(Err(e)),
        _ => n == BuildStage::PrepareBase(k),
    }
}

pub open spec fn removing(n: BuildStage, c: Seq<char>, detail: Option<Seq<char>>) -> bool {
    n matches BuildStage::Remove { container, failure } && container@ == c && match detail {
        None => failure is None,
        Some(d) => failure matches Some(e) && is_failure(e, d, false),
    }
}

/// One step of a build job: from `j`, on outcome `o`, to `n`.
pub open spec fn build_step(j: BuildJob, o: Outcome, n: BuildJob) -> bool {
    &&& n.base_ref@ == j.base_ref@
    &&& n.install_script@ == j.install_script@
    &&& n.target@ == j.target@
    &&& match j.stage {
        BuildStage::PrepareBase(ij) => exists|k: ImportJob|
            #[trigger] import_step(ij, o, k) && after_base(k, n.stage),
        BuildStage::From => match o {
            Outcome::Exited { success, stdout, stderr } => if !success {
                n.stage matches BuildStage::Done(Err(e)) && is_failure(
                    e,
                    "buildah from failed: "@ + stderr@,
                    false,
                )
            } else if trim(stdout@).len() == 0 {
                n.stage matches BuildStage::Done(Err(e)) && is_failure(
                    e,
                    "buildah from returned empty container name"@,
                    false,
                )
            } else {
                n.stage matches BuildStage::Bootstrap { container } && container@ == trim(stdout@)
            },
            Outcome::NotStarted(m) => n.stage matches BuildStage::Done(Err(e)) && is_failure(
                e,
                not_started_detail(m@),
                false,
            ),
            _ => false,
        },
        BuildStage::Bootstrap { container } => n.stage matches BuildStage::Install { container: c }
            && c@ == container@,
        BuildStage::Install { container } => match o {
            Outcome::Exited { success: true, .. } => n.stage matches BuildStage::Commit {
                container: c,
            } && c@ == container@,
            Outcome::Exited { success: false, .. } => removing(
                n.stage,
                container@,
                Some("pip install failed inside buildah run"@),
            ),
            Outcome::NotStarted(m) => removing(n.stage, container@, Some(not_started_detail(m@))),
            _ => false,
        },
        BuildStage::Commit { container } => match o {
            Outcome::Exited { success: true, .. } => removing(n.stage, container@, None),
            Outcome::Exited { success: false, .. } => removing(
                n.stage,
                container@,
                Some("buildah commit failed"@),
            ),
            Outcome::NotStarted(m) => removing(n.stage, container@, Some(not_started_detail(m@))),
            _ => false,
        },
        BuildStage::Remove { failure, .. } => match failure {
            Some(e) => n.stage == BuildStage::Done(Err(e)),
            None => n.stage matches BuildStage::Done(Ok(r)) && r@ == "containers-storage:"@
                + j.target@,
        },
        BuildStage::Done(r) => n.stage == j.stage,
    }
}

impl BuildJob {
    /// Whether `o` is an outcome of the pending request.
    pub fn accepts(&self, o: &Outcome) -> (r: bool)
        ensures
            r == build_fits(self.stage, *o),
    {
        match &self.stage {
            BuildStage::PrepareBase(ij) => !matches!(ij.stage, ImportStage::Done(_)) && ij.accepts(o),
            BuildStage::From | BuildStage::Install { .. } | BuildStage::Commit { .. } => match o {
                Outcome::Exited { .. } => true,
                Outcome::NotStarted(_) => true,
                _ => false,
            },
            _ => true,
        }
    }

    /// The request that the current stage waits on.
    pub fn request(&self) -> (r: Request)
        ensures
            self.stage is From ==> (r matches Request::Capture(c) && c@ == from_command(
                self.base_ref@,
            )),
            self.stage matches BuildStage::Bootstrap { container } ==> (
            r matches Request::Cleanup(c) && c@ == run_as_root_command(
                container@,
                bootstrap_script(),
            )),
            self.stage matches BuildStage::Install { container } ==> (r matches Request::Run(c)
                && c@ == run_as_root_command(container@, self.install_script@)),
            self.stage matches BuildStage::Commit { container } ==> (r matches Request::Run(c)
                && c@ == commit_command(container@, self.target@)),
            self.stage matches BuildStage::Remove { container, .. } ==> (
            r matches Request::Cleanup(c) && c@ == remove_command(container@)),
            self.stage matches BuildStage::Done(res) ==> (r matches Request::Finished(res2)
                && res2 == res),
    {
        match &self.stage {
            BuildStage::PrepareBase(ij) => ij.request(),
            BuildStage::From => Request::Capture(buildah_from(self.base_ref.as_str())),
            BuildStage::Bootstrap { container } => Request::Cleanup(
                buildah_run_as_root(container.as_str(), bootstrap().as_str()),
            ),
            BuildStage::Install { container } => Request::Run(
                buildah_run_as_root(container.as_str(), self.install_script.as_str()),
            ),
            BuildStage::Commit { container } => Request::Run(
                buildah_commit(container.as_str(), self.target.as_str()),
            ),
            BuildStage::Remove { container, .. } => Request::Cleanup(buildah_rm(container.as_str())),
            BuildStage::Done(r) => Request::Finished(copy_result(r)),
        }
    }

    /// Moves on by the outcome of the pending request.
    pub fn advance(&mut self, o: Outcome)
        requires
            build_fits(old(self).stage, o),
        ensures
            build_step(*old(self), o, *final(self)),
    {
        proof {
            reveal_strlit("");
        }
        let next = match &self.stage {
            BuildStage::PrepareBase(ij) => {
                let mut k = copy_import(ij);
                k.advance(o);
                let n = match &k.stage {
                    ImportStage::Done(Ok(_)) => BuildStage::From,
                    ImportStage::Done(Err(e)) => BuildStage::Done(Err(copy_error(e))),
                    _ => BuildStage::PrepareBase(k),
                };
                assert(import_step(*ij, o, k) && after_base(k, n));
                n
            },
            BuildStage::From => match &o {
                Outcome::Exited { success, stdout, stderr } => if !*success {
                    BuildStage::Done(Err(failure("buildah from failed: ", stderr.as_str(), false)))
                } else {
                    match container_name(stdout.as_str()) {
                        None => BuildStage::Done(
                            Err(failure("buildah from returned empty container name", "", false)),
                        ),
                        Some(c) => BuildStage::Bootstrap { container: c },
                    }
                },
                Outcome::NotStarted(m) => BuildStage::Done(Err(not_started_error(m))),
                _ => BuildStage::From,
            },
            BuildStage::Bootstrap { container } => BuildStage::Install { container: container.clone() },
            BuildStage::Install { container } => match &o {
                Outcome::Exited { success: true, .. } => BuildStage::Commit {
                    container: container.clone(),
                },
                Outcome::NotStarted(m) => BuildStage::Remove {
                    container: container.clone(),
                    failure: Some(not_started_error(m)),
                },
                _ => BuildStage::Remove {
                    container: container.clone(),
                    failure: Some(failure("pip install failed inside buildah run", "", false)),
                },
            },
            BuildStage::Commit { container } => match &o {
                Outcome::Exited { success: true, .. } => BuildStage::Remove {
                    container: container.clone(),
                    failure: None,
                },
                Outcome::NotStarted(m) => BuildStage::Remove {
                    container: container.clone(),
                    failure: Some(not_started_error(m)),
                },
                _ => BuildStage::Remove {
                    container: container.clone(),
                    failure: Some(failure("buildah commit failed", "", false)),
                },
            },
            BuildStage::Remove { failure, .. } => match failure {
                Some(e) => BuildStage::Done(Err(copy_error(e))),
                None => {
                    let mut r = "containers-storage:".to_owned();
                    r.append(self.target.as_str());
                    BuildStage::Done(Ok(r))
                },
            },
            BuildStage::Done(r) => BuildStage::Done(copy_result(r)),
        };
        self.stage = next;
    }
}

/// `name` is the store name of an image built from `packages` with a
/// derived tag.
pub open spec fn derived_target(packages: Seq<Seq<char>>, name: Seq<char>) -> bool {
    exists|t: Seq<char>| name == "localhost/flashvm:"@ + t && #[trigger] tag_of_packages(packages, t)
}

/// Two builds from package lists with the same items, in any order, and no
/// explicit tag target the same image name.
pub proof fn law_same_packages_same_target(
    xs: Seq<Seq<char>>,
    ys: Seq<Seq<char>>,
    n1: Seq<char>,
    n2: Seq<char>,
)
    requires
        same_items(xs, ys),
        derived_target(xs, n1),
        derived_target(ys, n2),
    ensures
        n1 == n2,
{
    let t1 = choose|t: Seq<char>| n1 == "localhost/flashvm:"@ + t && #[trigger] tag_of_packages(xs, t);
    let t2 = choose|t: Seq<char>| n2 == "localhost/flashvm:"@ + t && #[trigger] tag_of_packages(ys, t);
    law_tag_ignores_order(xs, ys, t1, t2);
}

/// The working container is always removed: a step from a stage that
/// holds it keeps holding the same container or goes on to remove it, and a
/// build finishes only from a stage that holds none.
pub proof fn law_container_always_removed(j: BuildJob, o: Outcome, n: BuildJob)
    requires
        build_step(j, o, n),
    ensures
        holds_container(j.stage) ==> (holds_container(n.stage) || n.stage is Remove)
            && container_of(n.stage) == container_of(j.stage),
        n.stage is Done && !(j.stage is Done) ==> !holds_container(j.stage),
{
}

impl ImageResolver {
    /// Starts a build of a new image: `packages` installed into `base_image`
    /// (the embedded default image when `None`, imported first), tagged
    /// `tag` or a tag derived from the set of packages. An empty package
    /// list is a configuration error; a base that does not resolve (see
    /// `validate_image_ref`, with `base_facts` for its path) is rejected.
    pub fn pip_install_into_image(
        &self,
        base_image: Option<&str>,
        base_facts: &PathFacts,
        packages: &Vec<String>,
        tag: Option<&str>,
        index_url: Option<&str>,
        extra_index_url: Option<&str>,
        version: &str,
    ) -> (r: Result<BuildJob, VMError>)
        ensures
            packages@.len() == 0 ==> (r matches Err(e) && e is VMConfiguration),
            packages@.len() > 0 && base_image is Some && resolution(
                base_image->Some_0@,
                *base_facts,
            ) is None ==> (r matches Err(e) && e is ImageResolution && e.detail() == rejection_detail(
                base_image->Some_0@,
                *base_facts,
            )),
            r is Ok <==> packages@.len() > 0 && (base_image is None || resolution(
                base_image->Some_0@,
                *base_facts,
            ) is Some),
            r matches Ok(job) ==> {
                &&& job.install_script@ == pip_command(
                    views(packages@),
                    opt_view(index_url),
                    opt_view(extra_index_url),
                )
                &&& tag is Some ==> job.target@ == "localhost/flashvm:"@ + tag->Some_0@
                &&& tag is None ==> derived_target(views(packages@), job.target@)
                &&& base_image is Some ==> job.base_ref@ == base_image->Some_0@ && job.stage is From
                &&& base_image is None ==> job.base_ref@ == "containers-storage:"@ + CANONICAL_IMAGE@
                &&& base_image is None ==> (job.stage matches BuildStage::PrepareBase(ij)
                    && ij.embedded && ij.dest@ == CANONICAL_IMAGE@ && ij.stage is ListImages)
            },
    {
        if packages.len() == 0 {
            return Err(VMError::VMConfiguration("packages list cannot be empty".to_owned()));
        }
        let (base_ref, stage) = match base_image {
            None => {
                let mut b = "containers-storage:".to_owned();
                b.append(CANONICAL_IMAGE);
                (b, BuildStage::PrepareBase(ImportJob::embedded(&self.cache_config, version)))
            },
            Some(img) => {
                match self.validate_image_ref(img, base_facts) {
                    Err(e) => {
                        return Err(e);
                    },
                    Ok(_) => {},
                }
                (img.to_owned(), BuildStage::From)
            },
        };
        let t = target_tag(packages, tag);
        let mut target = "localhost/flashvm:".to_owned();
        target.append(t.as_str());
        proof {
            if tag is None {
                assert(target@ == "localhost/flashvm:"@ + t@ && tag_of_packages(views(packages@), t@));
            }
        }
        let install_script = pip_install(packages, index_url, extra_index_url);
        Ok(BuildJob { base_ref, install_script, target, stage })
    }

    /// Whether the store listing reported by `listing` names `name`. A
    /// listing that failed, or could not be started, is an `Execution` error.
    pub fn image_exists_in_storage(&self, name: &str, listing: &Outcome) -> (r: Result<bool, VMError>)
        requires
            listing is Exited || listing is NotStarted,
        ensures
            listing matches Outcome::Exited { success: true, stdout, .. } ==> (r matches Ok(b) && b
                == listed(stdout@, name@)),
            listing matches Outcome::Exited { success: false, stderr, .. } ==> (r matches Err(e)
                && is_failure(e, "Failed to list images in containers-storage: "@ + stderr@, false)),
            listing matches Outcome::NotStarted(m) ==> (r matches Err(e) && is_failure(
                e,
                not_started_detail(m@),
                false,
            )),
    {
        match listing {
            Outcome::Exited { success, stdout, stderr } => if *success {
                Ok(image_in_listing(stdout.as_str(), name))
            } else {
                Err(failure("Failed to list images in containers-storage: ", stderr.as_str(), false))
            },
            Outcome::NotStarted(m) => Err(not_started_error(m)),
            _ => Ok(false),
        }
    }

    /// Whether the store listing names the embedded default image.
    pub fn embedded_is_imported(&self, listing: &Outcome) -> (r: Result<bool, VMError>)
        requires
            listing is Exited || listing is NotStarted,
        ensures
            listing matches Outcome::Exited { success: true, stdout, .. } ==> (r matches Ok(b) && b
                == listed(stdout@, CANONICAL_IMAGE@)),
            !(listing matches Outcome::Exited { success: true, .. }) ==> (r matches Err(e) && e is Execution),
    {
        self.image_exists_in_storage(CANONICAL_IMAGE, listing)
    }

    /// The job that makes sure the embedded default image is in the store,
    /// recording `version` in the sentinel.
    pub fn import_embedded_now(&self, version: &str) -> (r: ImportJob)
        ensures
            r.embedded,
            r.dest@ == CANONICAL_IMAGE@,
            r.stage is ListImages,
            r.sentinel_path@ == self.cache_config.cache_dir@ + "/state"@ + "/embedded_import.json"@,
            r.version@ == version@,
    {
        ImportJob::embedded(&self.cache_config, version)
    }
}

/// A copy of an import job.
fn copy_import(j: &ImportJob) -> (c: ImportJob)
    ensures
        c == *j,
{
    let stage = match &j.stage {
        ImportStage::ListImages => ImportStage::ListImages,
        ImportStage::LocateEmbedded => ImportStage::LocateEmbedded,
        ImportStage::ProbeLayout => ImportStage::ProbeLayout,
        ImportStage::FindSkopeo => ImportStage::FindSkopeo,
        ImportStage::SkopeoCopy => ImportStage::SkopeoCopy,
        ImportStage::BuildahFrom => ImportStage::BuildahFrom,
        ImportStage::Commit { container } => ImportStage::Commit { container: container.clone() },
        ImportStage::RemoveContainer { container, failure } => ImportStage::RemoveContainer {
            container: container.clone(),
            failure: match failure {
                Some(e) => Some(copy_error(e)),
                None => None,
            },
        },
        ImportStage::WriteSentinel => ImportStage::WriteSentinel,
        ImportStage::Done(r) => ImportStage::Done(copy_result(r)),
    };
    ImportJob {
        embedded: j.embedded,
        source: j.source.clone(),
        dest: j.dest.clone(),
        layout_dir: j.layout_dir.clone(),
        state_dir: j.state_dir.clone(),
        sentinel_path: j.sentinel_path.clone(),
        version: j.version.clone(),
        stage,
    }
}

} // verus!
