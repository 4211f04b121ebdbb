use vstd::prelude::*;
use crate::commands::{
    buildah_commit, buildah_from, buildah_rm, commit_command, from_command, list_images,
    list_images_command, remove_command, sentinel, sentinel_record, skopeo_copy,
    skopeo_copy_command,
};
use crate::config::CacheConfig;
use crate::error::VMError;
use crate::job::{failure, is_failure, not_started_detail, not_started_error, Outcome, Request};
use crate::reference::{layout_error, layout_error_detail, CANONICAL_IMAGE, EMBEDDED_TAG};
use crate::store::{container_name, image_in_listing, listed};
use crate::text::trim;

verus! {

/// Where an import job stands; each stage names the request it waits on.
#[derive(Debug)]
pub enum ImportStage {
    /// Listing the store, to skip work that was done before.
    ListImages,
    /// Finding the embedded layout directory.
    LocateEmbedded,
    /// Checking that directory's layout members.
    ProbeLayout,
    /// Looking for the fast copy tool.
    FindSkopeo,
    /// Copying with the fast copy tool.
    SkopeoCopy,
    /// Instantiating a container from the source (fallback path).
    BuildahFrom,
    /// Committing the container under the destination name.
    Commit { container: String },
    /// Removing the container; `failure` is reported after it, if any.
    RemoveContainer { container: String, failure: Option<VMError> },
    /// Recording the sentinel.
    WriteSentinel,
    /// Over: the destination name, or the error.
    Done(Result<String, VMError>),
}

/// Brings an image held outside the store (an OCI layout, a directory or an
/// archive) into the local store under a destination name: with
/// the fast copy tool when it is installed and works, otherwise by
/// instantiating a container and committing it. The embedded default image
/// is first looked up in the store, and a sentinel is recorded after it has
/// been imported.
#[derive(Debug)]
pub struct ImportJob {
    /// Importing the embedded default image.
    pub embedded: bool,
    /// The reference that is imported.
    pub source: String,
    /// The store name it is imported as.
    pub dest: String,
    /// The layout directory of the embedded image, once located.
    pub layout_dir: String,
    /// Directory and path of the sentinel file.
    pub state_dir: String,
    pub sentinel_path: String,
    /// The library version recorded in the sentinel.
    pub version: String,
    pub stage: ImportStage,
}

pub open spec fn done_ok(s: ImportStage, v: Seq<char>) -> bool {
    s matches ImportStage::Done(Ok(n)) && n@ == v
}

pub open spec fn done_err(s: ImportStage, detail: Seq<char>, resolution: bool) -> bool {
    s matches ImportStage::Done(Err(e)) && is_failure(e, detail, resolution)
}

/// The next stage after a step that imported the image.
pub open spec fn imported(j: ImportJob, n: ImportJob) -> bool {
    if j.embedded {
        n.stage is WriteSentinel
    } else {
        done_ok(n.stage, j.dest@)
    }
}

/// The outcome kinds that a stage can take.
pub open spec fn fits(s: ImportStage, o: Outcome) -> bool {
    match s {
        ImportStage::LocateEmbedded => o is Located,
        ImportStage::ProbeLayout => o is Probed,
        ImportStage::WriteSentinel => o is Written,
        ImportStage::RemoveContainer { .. } => true,
        ImportStage::Done(_) => true,
        _ => o is Exited || o is NotStarted,
    }
}

/// One step of an import job: from `j`, on outcome `o`, to `n`.
pub open spec fn import_step(j: ImportJob, o: Outcome, n: ImportJob) -> bool {
    &&& n.embedded == j.embedded
    &&& n.dest@ == j.dest@
    &&& n.state_dir@ == j.state_dir@
    &&& n.sentinel_path@ == j.sentinel_path@
    &&& n.version@ == j.version@
    &&& !(j.stage is LocateEmbedded) ==> n.source@ == j.source@ && n.layout_dir@ == j.layout_dir@
    &&& match j.stage {
        ImportStage::ListImages => match o {
            Outcome::Exited { success, stdout, stderr } => if !success {
                done_err(n.stage, "Failed to list images in containers-storage: "@ + stderr@, false)
            } else if listed(stdout@, j.dest@) {
                done_ok(n.stage, j.dest@)
            } else {
                n.stage is LocateEmbedded
            },
            Outcome::NotStarted(m) => done_err(n.stage, not_started_detail(m@), false),
            _ => false,
        },
        ImportStage::LocateEmbedded => match &o {
            Outcome::Located(Some(d)) => {
                &&& n.stage is ProbeLayout
                &&& n.layout_dir@ == d@
                &&& n.source@ == "oci:"@ + d@ + ":"@ + EMBEDDED_TAG@
            },
            Outcome::Located(None) => done_err(
                n.stage,
                "Embedded OCI image not found (flashvm/data/oci)"@,
                true,
            ),
            _ => false,
        },
        ImportStage::ProbeLayout => match &o {
            Outcome::Probed(f) => if f.complete_layout() {
                n.stage is FindSkopeo
            } else {
                n.stage matches ImportStage::Done(Err(e)) && e is ImageResolution && (f.exists
                    ==> e.detail() == layout_error_detail(j.layout_dir@, *f))
            },
            _ => false,
        },
        ImportStage::FindSkopeo => if o matches Outcome::Exited { success: true, .. } {
            n.stage is SkopeoCopy
        } else {
            n.stage is BuildahFrom
        },
        ImportStage::SkopeoCopy => match &o {
            Outcome::Exited { success, .. } => if *success {
                imported(j, n)
            } else {
                n.stage is BuildahFrom
            },
            Outcome::NotStarted(m) => done_err(n.stage, not_started_detail(m@), false),
            _ => false,
        },
        ImportStage::BuildahFrom => match &o {
            Outcome::Exited { success, stdout, stderr } => if !*success {
                done_err(n.stage, "buildah from failed: "@ + stderr@, j.embedded)
            } else if trim(stdout@).len() == 0 {
                done_err(n.stage, "buildah from did not return a container name"@, j.embedded)
            } else {
                n.stage matches ImportStage::Commit { container } && container@ == trim(stdout@)
            },
            Outcome::NotStarted(m) => done_err(n.stage, not_started_detail(m@), false),
            _ => false,
        },
        ImportStage::Commit { container } => n.stage matches ImportStage::RemoveContainer {
            container: c,
            failure,
        } && c@ == container@ && match o {
            Outcome::Exited { success: true, .. } => failure is None,
            Outcome::Exited { success: false, .. } => failure matches Some(e) && is_failure(
                e,
                "buildah commit failed"@,
                j.embedded,
            ),
            Outcome::NotStarted(m) => failure matches Some(e) && is_failure(
                e,
                not_started_detail(m@),
                false,
            ),
            _ => false,
        },
        ImportStage::RemoveContainer { container, failure } => match failure {
            Some(e) => n.stage matches ImportStage::Done(Err(e2)) && e2 == e,
            None => imported(j, n),
        },
        ImportStage::WriteSentinel => match &o {
            Outcome::Written(Ok(())) => done_ok(n.stage, j.dest@),
            Outcome::Written(Err(m)) => n.stage matches ImportStage::Done(Err(e)) && e
                == VMError::IO(*m),
            _ => false,
        },
        ImportStage::Done(r) => n.stage == j.stage,
    }
}

impl ImportJob {
    /// Makes sure the embedded default image is in the store under its
    /// canonical name, importing it at most once.
    pub fn embedded(cache: &CacheConfig, version: &str) -> (r: ImportJob)
        ensures
            r.embedded,
            r.dest@ == CANONICAL_IMAGE@,
            r.state_dir@ == cache.cache_dir@ + "/state"@,
            r.sentinel_path@ == cache.cache_dir@ + "/state"@ + "/embedded_import.json"@,
            r.version@ == version@,
            r.stage is ListImages,
    {
        ImportJob {
            embedded: true,
            source: String::new(),
            dest: CANONICAL_IMAGE.to_owned(),
            layout_dir: String::new(),
            state_dir: cache.state_dir(),
            sentinel_path: cache.sentinel_path(),
            version: version.to_owned(),
            stage: ImportStage::ListImages,
        }
    }

    /// Imports the image `oci_ref` (an `oci:`, `dir:` or `oci-archive:`
    /// reference) into the store as `dest`.
    pub fn from_oci(oci_ref: &str, dest: &str) -> (r: ImportJob)
        ensures
            !r.embedded,
            r.source@ == oci_ref@,
            r.dest@ == dest@,
            r.stage is FindSkopeo,
    {
        ImportJob {
            embedded: false,
            source: oci_ref.to_owned(),
            dest: dest.to_owned(),
            layout_dir: String::new(),
            state_dir: String::new(),
            sentinel_path: String::new(),
            version: String::new(),
            stage: ImportStage::FindSkopeo,
        }
    }

    /// Whether `o` is an outcome of the pending request.
    pub fn accepts(&self, o: &Outcome) -> (r: bool)
        ensures
            r == fits(self.stage, *o),
    {
        match (&self.stage, o) {
            (ImportStage::LocateEmbedded, Outcome::Located(_)) => true,
            (ImportStage::LocateEmbedded, _) => false,
            (ImportStage::ProbeLayout, Outcome::Probed(_)) => true,
            (ImportStage::ProbeLayout, _) => false,
            (ImportStage::WriteSentinel, Outcome::Written(_)) => true,
            (ImportStage::WriteSentinel, _) => false,
            (ImportStage::RemoveContainer { .. }, _) => true,
            (ImportStage::Done(_), _) => true,
            (_, Outcome::Exited { .. }) => true,
            (_, Outcome::NotStarted(_)) => true,
            _ => false,
        }
    }

    /// The request that the current stage waits on.
    pub fn request(&self) -> (r: Request)
        ensures
            self.stage is ListImages ==> (r matches Request::Capture(c) && c@
                == list_images_command()),
            self.stage is LocateEmbedded ==> r is LocateEmbedded,
            self.stage is ProbeLayout ==> (r matches Request::Probe(d) && d@ == self.layout_dir@),
            self.stage is FindSkopeo ==> (r matches Request::FindProgram(p) && p@ == "skopeo"@),
            self.stage is SkopeoCopy ==> (r matches Request::Run(c) && c@ == skopeo_copy_command(
                self.source@,
                self.dest@,
            )),
            self.stage is BuildahFrom ==> (r matches Request::Capture(c) && c@ == from_command(
                self.source@,
            )),
            self.stage matches ImportStage::Commit { container } ==> (r matches Request::Run(c)
                && c@ == commit_command(container@, self.dest@)),
            self.stage matches ImportStage::RemoveContainer { container, .. } ==> (
            r matches Request::Cleanup(c) && c@ == remove_command(container@)),
            self.stage is WriteSentinel ==> (r matches Request::WriteFile { dir, path, content }
                && dir@ == self.state_dir@ && path@ == self.sentinel_path@ && content@
                == sentinel_record(self.dest@, self.layout_dir@, self.version@)),
            self.stage matches ImportStage::Done(res) ==> (r matches Request::Finished(res2)
                && res2 == res),
    {
        match &self.stage {
            ImportStage::ListImages => Request::Capture(list_images()),
            ImportStage::LocateEmbedded => Request::LocateEmbedded,
            ImportStage::ProbeLayout => Request::Probe(self.layout_dir.clone()),
            ImportStage::FindSkopeo => Request::FindProgram("skopeo".to_owned()),
            ImportStage::SkopeoCopy => Request::Run(skopeo_copy(self.source.as_str(), self.dest.as_str())),
            ImportStage::BuildahFrom => Request::Capture(buildah_from(self.source.as_str())),
            ImportStage::Commit { container } => Request::Run(
                buildah_commit(container.as_str(), self.dest.as_str()),
            ),
            ImportStage::RemoveContainer { container, .. } => Request::Cleanup(
                buildah_rm(container.as_str()),
            ),
            ImportStage::WriteSentinel => Request::WriteFile {
                dir: self.state_dir.clone(),
                path: self.sentinel_path.clone(),
                content: sentinel(self.dest.as_str(), self.layout_dir.as_str(), self.version.as_str()),
            },
            ImportStage::Done(r) => Request::Finished(copy_result(r)),
        }
    }

    fn imported_stage(&self) -> (s: ImportStage)
        ensures
            self.embedded ==> s is WriteSentinel,
            !self.embedded ==> done_ok(s, self.dest@),
    {
        if self.embedded {
            ImportStage::WriteSentinel
        } else {
            ImportStage::Done(Ok(self.dest.clone()))
        }
    }

    /// Moves on by the outcome of the pending request.
    pub fn advance(&mut self, o: Outcome)
        requires
            fits(old(self).stage, o),
        ensures
            import_step(*old(self), o, *final(self)),
    {
        proof {
            reveal_strlit("");
        }
        let next = match &self.stage {
            ImportStage::ListImages => match &o {
                Outcome::Exited { success, stdout, stderr } => if !success {
                    ImportStage::Done(
                        Err(failure("Failed to list images in containers-storage: ", stderr.as_str(), false)),
                    )
                } else if image_in_listing(stdout.as_str(), self.dest.as_str()) {
                    ImportStage::Done(Ok(self.dest.clone()))
                } else {
                    ImportStage::LocateEmbedded
                },
                Outcome::NotStarted(m) => ImportStage::Done(Err(not_started_error(m))),
                _ => ImportStage::ListImages,
            },
            ImportStage::LocateEmbedded => match &o {
                Outcome::Located(Some(d)) => {
                    let mut source = "oci:".to_owned();
                    source.append(d.as_str());
                    source.append(":");
                    source.append(EMBEDDED_TAG);
                    self.source = source;
                    self.layout_dir = d.clone();
                    ImportStage::ProbeLayout
                },
                _ => ImportStage::Done(
                    Err(VMError::ImageResolution("Embedded OCI image not found (flashvm/data/oci)".to_owned())),
                ),
            },
            ImportStage::ProbeLayout => match &o {
                Outcome::Probed(f) => if f.exists && f.layout_marker && f.index && f.blobs {
                    ImportStage::FindSkopeo
                } else {
                    ImportStage::Done(Err(layout_error(self.layout_dir.as_str(), f)))
                },
                _ => ImportStage::ProbeLayout,
            },
            ImportStage::FindSkopeo => match &o {
                Outcome::Exited { success: true, .. } => ImportStage::SkopeoCopy,
                _ => ImportStage::BuildahFrom,
            },
            ImportStage::SkopeoCopy => match &o {
                Outcome::Exited { success, .. } => if *success {
                    self.imported_stage()
                } else {
                    ImportStage::BuildahFrom
                },
                Outcome::NotStarted(m) => ImportStage::Done(Err(not_started_error(m))),
                _ => ImportStage::SkopeoCopy,
            },
            ImportStage::BuildahFrom => match &o {
                Outcome::Exited { success, stdout, stderr } => if !success {
                    ImportStage::Done(Err(failure("buildah from failed: ", stderr.as_str(), self.embedded)))
                } else {
                    match container_name(stdout.as_str()) {
                        None => ImportStage::Done(
                            Err(failure("buildah from did not return a container name", "", self.embedded)),
                        ),
                        Some(c) => ImportStage::Commit { container: c },
                    }
                },
                Outcome::NotStarted(m) => ImportStage::Done(Err(not_started_error(m))),
                _ => ImportStage::BuildahFrom,
            },
            ImportStage::Commit { container } => {
                let failure = match &o {
                    Outcome::Exited { success: true, .. } => None,
                    Outcome::NotStarted(m) => Some(not_started_error(m)),
                    _ => Some(failure("buildah commit failed", "", self.embedded)),
                };
                ImportStage::RemoveContainer { container: container.clone(), failure }
            },
            ImportStage::RemoveContainer { container, failure } => match failure {
                Some(e) => ImportStage::Done(Err(copy_error(e))),
                None => self.imported_stage(),
            },
            ImportStage::WriteSentinel => match &o {
                Outcome::Written(Err(m)) => ImportStage::Done(Err(VMError::IO(m.clone()))),
                _ => ImportStage::Done(Ok(self.dest.clone())),
            },
            ImportStage::Done(r) => ImportStage::Done(copy_result(r)),
        };
        self.stage = next;
    }
}

/// Idempotence of the default import: when the store's listing already
/// names the canonical image, the job's first step finishes it with the
/// canonical name, so no copy, container or sentinel work is requested.
pub proof fn law_import_skipped_when_present(
    j: ImportJob,
    listing: String,
    stderr: String,
    n: ImportJob,
)
    requires
        j.embedded,
        j.dest@ == CANONICAL_IMAGE@,
        j.stage is ListImages,
        listed(listing@, CANONICAL_IMAGE@),
        import_step(j, Outcome::Exited { success: true, stdout: listing, stderr }, n),
    ensures
        done_ok(n.stage, CANONICAL_IMAGE@),
        n.dest@ == CANONICAL_IMAGE@,
{
}

/// A default-image import succeeds in exactly two ways: at once, when the
/// listing shows the image, or right after the sentinel has been recorded.
pub proof fn law_import_success_is_recorded(j: ImportJob, o: Outcome, n: ImportJob)
    requires
        j.embedded,
        import_step(j, o, n),
        !(j.stage is Done),
        n.stage matches ImportStage::Done(Ok(_)),
    ensures
        j.stage is ListImages || j.stage is WriteSentinel,
{
}

/// A copy of a job's result.
pub fn copy_result(r: &Result<String, VMError>) -> (c: Result<String, VMError>)
    ensures
        c == *r,
{
    match r {
        Ok(s) => Ok(s.clone()),
        Err(e) => Err(copy_error(e)),
    }
}

/// A copy of an error.
pub fn copy_error(e: &VMError) -> (c: VMError)
    ensures
        c == *e,
{
    match e {
        VMError::ImageResolution(m) => VMError::ImageResolution(m.clone()),
        VMError::VMConfiguration(m) => VMError::VMConfiguration(m.clone()),
        VMError::Execution(m) => VMError::Execution(m.clone()),
        VMError::IO(m) => VMError::IO(m.clone()),
        VMError::Timeout(m) => VMError::Timeout(m.clone()),
        VMError::MissingDependency(m) => VMError::MissingDependency(m.clone()),
    }
}

} // verus!
