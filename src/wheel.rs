use vstd::prelude::*;
use crate::reference::{last_colon, lemma_last_colon_bounds, path_part, split_path_tag, PathFacts, EMBEDDED_TAG};
use crate::text::{has_prefix, starts_with, suffix_from};

verus! {

pub open spec fn found_text(found: bool) -> Seq<char> {
    if found {
        "true"@
    } else {
        "false"@
    }
}

/// The message for an embedded layout at `dir` that lacks members: each
/// member with whether it was found.
pub open spec fn embedded_layout_error(dir: Seq<char>, f: PathFacts) -> Seq<char> {
    "Invalid OCI structure at "@ + dir + ": oci-layout="@ + found_text(f.layout_marker)
        + ", index.json="@ + found_text(f.index) + ", blobs/sha256="@ + found_text(f.blobs)
}

/// The reference of the embedded layout found at `dir`, or a message that
/// lists what was found of its members.
pub fn embedded_layout_ref(dir: &str, facts: &PathFacts) -> (r: Result<String, String>)
    ensures
        r is Ok <==> facts.layout_marker && facts.index && facts.blobs,
        r matches Ok(s) ==> s@ == "oci:"@ + dir@ + ":"@ + EMBEDDED_TAG@,
        r matches Err(m) ==> m@ == embedded_layout_error(dir@, *facts),
{
    if facts.layout_marker && facts.index && facts.blobs {
        let mut r = "oci:".to_owned();
        r.append(dir);
        r.append(":");
        r.append(EMBEDDED_TAG);
        Ok(r)
    } else {
        let mut m = "Invalid OCI structure at ".to_owned();
        m.append(dir);
        m.append(": oci-layout=");
        m.append(if facts.layout_marker { "true" } else { "false" });
        m.append(", index.json=");
        m.append(if facts.index { "true" } else { "false" });
        m.append(", blobs/sha256=");
        m.append(if facts.blobs { "true" } else { "false" });
        Err(m)
    }
}

/// The directory of an `oci:<dir>:<tag>` reference.
pub fn layout_dir_of(oci_ref: &str) -> (r: Option<String>)
    ensures
        !starts_with(oci_ref@, "oci:"@) ==> r is None,
        starts_with(oci_ref@, "oci:"@) ==> (r is Some <==> last_colon(
            oci_ref@.subrange("oci:"@.len() as int, oci_ref@.len() as int),
        ) >= 0),
        r matches Some(d) ==> d@ == path_part(
            oci_ref@.subrange("oci:"@.len() as int, oci_ref@.len() as int),
        ),
{
    if !has_prefix(oci_ref, "oci:") {
        return None;
    }
    let rest = suffix_from(oci_ref, "oci:".unicode_len());
    let (path, _tag) = split_path_tag(rest.as_str());
    proof {
        lemma_last_colon_bounds(rest@);
    }
    if path.as_str().unicode_len() == rest.as_str().unicode_len() {
        None
    } else {
        Some(path)
    }
}

} // verus!
