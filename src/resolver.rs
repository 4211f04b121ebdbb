use vstd::prelude::*;
use crate::config::CacheConfig;
use crate::error::VMError;
use crate::quote::{quote_word, quoted};
use crate::reference::{
    layout_error, layout_error_detail, oci_rest, path_part, rejection_detail, resolution,
    split_path_tag, PathFacts, CANONICAL_IMAGE,
};
use crate::text::{has_prefix, lemma_prefix_char, starts_with, suffix_from};

verus! {

/// Turns image references into names the VM runtime accepts, and builds
/// derived images in the local store.
pub struct ImageResolver {
    pub cache_config: CacheConfig,
}

impl ImageResolver {
    pub fn new(cache_config: CacheConfig) -> (r: ImageResolver)
        ensures
            r.cache_config == cache_config,
    {
        ImageResolver { cache_config }
    }

    /// Resolves a reference. `None` names the embedded default image, which
    /// the caller has imported first (see `import_embedded_now`); the canonical
    /// store name is returned. `facts` describe the path of `probe_target`.
    pub fn resolve_image_ref(&self, image_ref: Option<&str>, facts: &PathFacts) -> (r: Result<
        String,
        VMError,
    >)
        ensures
            image_ref is None ==> r is Ok && r->Ok_0@ == CANONICAL_IMAGE@,
            image_ref is Some ==> {
                &&& r is Ok <==> resolution(image_ref->Some_0@, *facts) is Some
                &&& r is Ok ==> r->Ok_0@ == resolution(image_ref->Some_0@, *facts)->Some_0
                &&& r is Err ==> r->Err_0 is ImageResolution
                &&& r is Err ==> r->Err_0.detail() == rejection_detail(image_ref->Some_0@, *facts)
            },
    {
        match image_ref {
            None => Ok(CANONICAL_IMAGE.to_owned()),
            Some(s) => self.validate_image_ref(s, facts),
        }
    }

    /// Validates a reference by its scheme: `docker://` needs a non-empty
    /// name, `containers-storage:` is kept, `oci:`, `dir:` and `oci-archive:` must
    /// name an existing path (a complete layout for `oci:`), anything else
    /// passes as a bare registry name.
    pub fn validate_image_ref(&self, image_ref: &str, facts: &PathFacts) -> (r: Result<
        String,
        VMError,
    >)
        ensures
            r is Ok <==> resolution(image_ref@, *facts) is Some,
            r is Ok ==> r->Ok_0@ == image_ref@,
            r is Err ==> r->Err_0 is ImageResolution,
            r is Err ==> r->Err_0.detail() == rejection_detail(image_ref@, *facts),
    {
        proof {
            reveal_strlit("docker://");
            reveal_strlit("containers-storage:");
            reveal_strlit("oci:");
            let r = image_ref@;
            if starts_with(r, "docker://"@) && starts_with(r, "containers-storage:"@) {
                lemma_prefix_char(r, "docker://"@, 0);
                lemma_prefix_char(r, "containers-storage:"@, 0);
            }
            if starts_with(r, "docker://"@) && starts_with(r, "oci:"@) {
                lemma_prefix_char(r, "docker://"@, 0);
                lemma_prefix_char(r, "oci:"@, 0);
            }
            if starts_with(r, "containers-storage:"@) && starts_with(r, "oci:"@) {
                lemma_prefix_char(r, "containers-storage:"@, 0);
                lemma_prefix_char(r, "oci:"@, 0);
            }
        }
        if has_prefix(image_ref, "docker://") {
            self.validate_docker_ref(image_ref)
        } else if has_prefix(image_ref, "containers-storage:") {
            Ok(image_ref.to_owned())
        } else if has_prefix(image_ref, "oci:") || has_prefix(image_ref, "dir:") || has_prefix(
            image_ref,
            "oci-archive:",
        ) {
            self.get_image_path_ref(image_ref, facts)
        } else {
            Ok(image_ref.to_owned())
        }
    }

    /// A reference to a path: `oci:` needs a complete layout, `dir:` and
    /// `oci-archive:` an existing path.
    pub fn get_image_path_ref(&self, image_ref: &str, facts: &PathFacts) -> (r: Result<
        String,
        VMError,
    >)
        requires
            starts_with(image_ref@, "oci:"@) || starts_with(image_ref@, "dir:"@) || starts_with(
                image_ref@,
                "oci-archive:"@,
            ),
        ensures
            r is Ok <==> resolution(image_ref@, *facts) is Some,
            r is Ok ==> r->Ok_0@ == image_ref@,
            r is Err ==> r->Err_0 is ImageResolution,
            r is Err ==> r->Err_0.detail() == rejection_detail(image_ref@, *facts),
            r is Err && !starts_with(image_ref@, "oci:"@) ==> r->Err_0.detail()
                == "Could not resolve image reference: "@ + image_ref@,
    {
        proof {
            reveal_strlit("docker://");
            reveal_strlit("containers-storage:");
            reveal_strlit("oci:");
            reveal_strlit("dir:");
            reveal_strlit("oci-archive:");
            let r = image_ref@;
            if starts_with(r, "docker://"@) {
                lemma_prefix_char(r, "docker://"@, 0);
                lemma_prefix_char(r, "docker://"@, 1);
            }
            if starts_with(r, "containers-storage:"@) {
                lemma_prefix_char(r, "containers-storage:"@, 0);
            }
            if starts_with(r, "oci:"@) {
                lemma_prefix_char(r, "oci:"@, 0);
            }
            if starts_with(r, "dir:"@) {
                lemma_prefix_char(r, "dir:"@, 0);
                lemma_prefix_char(r, "dir:"@, 1);
            }
            if starts_with(r, "oci-archive:"@) {
                lemma_prefix_char(r, "oci-archive:"@, 0);
            }
        }
        if has_prefix(image_ref, "oci:") {
            return self.validate_oci_ref(image_ref, facts);
        }
        if facts.exists {
            return Ok(image_ref.to_owned());
        }
        let mut m = "Could not resolve image reference: ".to_owned();
        m.append(image_ref);
        Err(VMError::ImageResolution(m))
    }

    /// `oci:<path>[:tag]`: the path must hold a complete OCI layout. A
    /// missing path, or missing members, are reported by name.
    pub fn validate_oci_ref(&self, oci_ref: &str, facts: &PathFacts) -> (r: Result<
        String,
        VMError,
    >)
        requires
            starts_with(oci_ref@, "oci:"@),
        ensures
            r is Ok <==> facts.complete_layout(),
            r is Ok ==> r->Ok_0@ == oci_ref@,
            r is Err ==> r->Err_0 is ImageResolution,
            r is Err && facts.exists ==> r->Err_0.detail() == layout_error_detail(
                path_part(oci_rest(oci_ref@)),
                *facts,
            ),
            r is Err && !facts.exists ==> r->Err_0.detail() == "OCI path does not exist: "@
                + path_part(oci_rest(oci_ref@)),
    {
        let rest = suffix_from(oci_ref, "oci:".unicode_len());
        let (path, _tag) = split_path_tag(rest.as_str());
        if !(facts.exists && facts.layout_marker && facts.index && facts.blobs) {
            return Err(layout_error(path.as_str(), facts));
        }
        Ok(oci_ref.to_owned())
    }

    /// `docker://<name>`: passed through unchanged (validated, not pulled);
    /// an empty name is rejected.
    pub fn validate_docker_ref(&self, docker_ref: &str) -> (r: Result<String, VMError>)
        ensures
            r is Ok <==> (starts_with(docker_ref@, "docker://"@) && docker_ref@.len()
                > "docker://"@.len()),
            r is Ok ==> r->Ok_0@ == docker_ref@,
            r is Err ==> r->Err_0 is ImageResolution,
            r is Err && starts_with(docker_ref@, "docker://"@) ==> r->Err_0.detail()
                == "Docker image name cannot be empty"@,
    {
        if !has_prefix(docker_ref, "docker://") {
            return Err(
                VMError::ImageResolution("Docker reference must start with docker://".to_owned()),
            );
        }
        if docker_ref.unicode_len() == "docker://".unicode_len() {
            return Err(VMError::ImageResolution("Docker image name cannot be empty".to_owned()));
        }
        Ok(docker_ref.to_owned())
    }

    /// Names of images held in a local cache; this engine keeps none.
    pub fn list_cached_images(&self) -> (r: Result<Vec<String>, VMError>)
        ensures
            r is Ok && r->Ok_0@.len() == 0,
    {
        Ok(Vec::new())
    }

    /// Clears the local cache; there is nothing to clear.
    pub fn clear_cache(&self) -> (r: Result<(), VMError>)
        ensures
            r is Ok,
    {
        Ok(())
    }

    /// Quotes `s` as one shell word for commands run inside a build container.
    pub fn sh_q(s: &str) -> (r: String)
        ensures
            r@ == quoted(s@, true),
    {
        quote_word(s, true)
    }
}

} // verus!
