use vstd::prelude::*;
use crate::error::VMError;
use crate::text::{chars_of, has_prefix, lemma_prefix_char, starts_with, suffix_from};

verus! {

/// The store name under which the embedded default image is imported.
pub const CANONICAL_IMAGE: &'static str = "localhost/flashvm:python-basic";

/// The tag of the image inside the embedded layout.
pub const EMBEDDED_TAG: &'static str = "python-basic";

/// What the filesystem showed about the directory a reference names, and
/// the three members that an OCI layout must hold.
#[derive(Debug, Clone, Copy, PartialEq, Eq)]
pub struct PathFacts {
    /// The path itself exists.
    pub exists: bool,
    /// `<path>/oci-layout` exists.
    pub layout_marker: bool,
    /// `<path>/index.json` exists.
    pub index: bool,
    /// `<path>/blobs/sha256` exists.
    pub blobs: bool,
}

impl PathFacts {
    pub open spec fn complete_layout(&self) -> bool {
        self.exists && self.layout_marker && self.index && self.blobs
    }
}

/// Index of the last `:` in `s`, or -1.
pub open spec fn last_colon(s: Seq<char>) -> int
    decreases s.len(),
{
    if s.len() == 0 {
        -1
    } else if s.last() == ':' {
        s.len() - 1
    } else {
        last_colon(s.drop_last())
    }
}

/// The path of `path[:tag]`: everything before the last colon, if any.
pub open spec fn path_part(s: Seq<char>) -> Seq<char> {
    if last_colon(s) < 0 {
        s
    } else {
        s.subrange(0, last_colon(s))
    }
}

/// The tag of `path[:tag]`, `latest` when there is none.
pub open spec fn tag_part(s: Seq<char>) -> Seq<char> {
    if last_colon(s) < 0 {
        "latest"@
    } else {
        s.subrange(last_colon(s) + 1, s.len() as int)
    }
}

pub proof fn lemma_last_colon_bounds(s: Seq<char>)
    ensures
        -1 <= last_colon(s) < s.len(),
    decreases s.len(),
{
    if s.len() > 0 && s.last() != ':' {
        lemma_last_colon_bounds(s.drop_last());
    }
}

/// Splits `path[:tag]` at its last colon.
pub fn split_path_tag(s: &str) -> (r: (String, String))
    ensures
        r.0@ == path_part(s@),
        r.1@ == tag_part(s@),
{
    let v = chars_of(s);
    let mut j: usize = v.len();
    assert(v@.subrange(0, j as int) == v@);
    while j > 0 && v[j - 1] != ':'
        invariant
            j <= v.len(),
            v@ == s@,
            last_colon(s@) == last_colon(v@.subrange(0, j as int)),
        decreases j,
    {
        assert(v@.subrange(0, j as int).drop_last() == v@.subrange(0, j - 1));
        j = j - 1;
    }
    proof {
        if j > 0 {
            assert(v@.subrange(0, j as int).last() == ':');
        }
    }
    if j == 0 {
        (s.to_owned(), "latest".to_owned())
    } else {
        let path = s.substring_char(0, j - 1).to_owned();
        let tag = suffix_from(s, j);
        (path, tag)
    }
}

/// What a reference stands for, given the facts about the path it names;
/// `None` when it is rejected.
pub open spec fn resolution(r: Seq<char>, f: PathFacts) -> Option<Seq<char>> {
    if starts_with(r, "docker://"@) {
        if r.len() == "docker://"@.len() {
            None
        } else {
            Some(r)
        }
    } else if starts_with(r, "containers-storage:"@) {
        Some(r)
    } else if starts_with(r, "oci:"@) {
        if f.complete_layout() {
            Some(r)
        } else {
            None
        }
    } else if starts_with(r, "dir:"@) || starts_with(r, "oci-archive:"@) {
        if f.exists {
            Some(r)
        } else {
            None
        }
    } else {
        Some(r)
    }
}

/// The part of an `oci:` reference after its scheme.
pub open spec fn oci_rest(r: Seq<char>) -> Seq<char> {
    r.subrange("oci:"@.len() as int, r.len() as int)
}

/// The detail of the error for a reference that `resolution` rejects: an
/// empty registry name; a missing OCI directory, or the layout members it
/// lacks; otherwise the reference itself.
pub open spec fn rejection_detail(r: Seq<char>, f: PathFacts) -> Seq<char> {
    if starts_with(r, "docker://"@) {
        "Docker image name cannot be empty"@
    } else if starts_with(r, "oci:"@) {
        let p = path_part(oci_rest(r));
        if f.exists {
            layout_error_detail(p, f)
        } else {
            "OCI path does not exist: "@ + p
        }
    } else {
        "Could not resolve image reference: "@ + r
    }
}

/// The part after the scheme of an `oci:`, `dir:` or `oci-archive:` reference.
pub open spec fn located_rest(r: Seq<char>) -> Option<Seq<char>> {
    if starts_with(r, "docker://"@) || starts_with(r, "containers-storage:"@) {
        None
    } else if starts_with(r, "oci:"@) {
        Some(r.subrange("oci:"@.len() as int, r.len() as int))
    } else if starts_with(r, "dir:"@) {
        Some(r.subrange("dir:"@.len() as int, r.len() as int))
    } else if starts_with(r, "oci-archive:"@) {
        Some(r.subrange("oci-archive:"@.len() as int, r.len() as int))
    } else {
        None
    }
}

/// The directory whose facts decide a reference, if any.
pub open spec fn probe_path(r: Seq<char>) -> Option<Seq<char>> {
    match located_rest(r) {
        Some(rest) => Some(path_part(rest)),
        None => None,
    }
}

/// The detail of the error for an OCI layout directory that lacks members:
/// each missing member is named.
pub open spec fn layout_error_detail(path: Seq<char>, f: PathFacts) -> Seq<char> {
    "Invalid OCI layout in "@ + path + ": missing"@ + (if !f.layout_marker {
        " oci-layout"@
    } else {
        Seq::empty()
    }) + (if !f.index {
        " index.json"@
    } else {
        Seq::empty()
    }) + (if !f.blobs {
        " blobs/sha256"@
    } else {
        Seq::empty()
    })
}

/// The error for an OCI layout at `path` that is not complete.
pub fn layout_error(path: &str, f: &PathFacts) -> (e: VMError)
    requires
        !f.complete_layout(),
    ensures
        e is ImageResolution,
        f.exists ==> e.detail() == layout_error_detail(path@, *f),
        !f.exists ==> e.detail() == "OCI path does not exist: "@ + path@,
{
    if !f.exists {
        let mut m = "OCI path does not exist: ".to_owned();
        m.append(path);
        return VMError::ImageResolution(m);
    }
    let mut m = "Invalid OCI layout in ".to_owned();
    m.append(path);
    m.append(": missing");
    if !f.layout_marker {
        m.append(" oci-layout");
    }
    if !f.index {
        m.append(" index.json");
    }
    if !f.blobs {
        m.append(" blobs/sha256");
    }
    assert(m@ == layout_error_detail(path@, *f));
    VMError::ImageResolution(m)
}

/// The path that must be probed to resolve `image_ref`: the directory of an
/// `oci:`, `dir:` or `oci-archive:` reference, without its tag.
pub fn probe_target(image_ref: &str) -> (r: Option<String>)
    ensures
        r is Some <==> probe_path(image_ref@) is Some,
        r is Some ==> r->Some_0@ == probe_path(image_ref@)->Some_0,
{
    let rest = if has_prefix(image_ref, "docker://") || has_prefix(image_ref, "containers-storage:") {
        return None;
    } else if has_prefix(image_ref, "oci:") {
        suffix_from(image_ref, "oci:".unicode_len())
    } else if has_prefix(image_ref, "dir:") {
        suffix_from(image_ref, "dir:".unicode_len())
    } else if has_prefix(image_ref, "oci-archive:") {
        suffix_from(image_ref, "oci-archive:".unicode_len())
    } else {
        return None;
    };
    let (path, _tag) = split_path_tag(rest.as_str());
    Some(path)
}


/// `n` occurs in `s`.
pub open spec fn contains(s: Seq<char>, n: Seq<char>) -> bool {
    exists|i: int| 0 <= i && i + n.len() <= s.len() && #[trigger] s.subrange(i, i + n.len()) == n
}

proof fn lemma_named(a: Seq<char>, word: Seq<char>, b: Seq<char>)
    ensures
        contains(a + seq![' '] + word + b, word),
{
    let s = a + seq![' '] + word + b;
    let i: int = a.len() as int + 1;
    assert(s.subrange(i, i + word.len() as int) == word);
}

proof fn lemma_spaced_words()
    ensures
        " oci-layout"@ == seq![' '] + "oci-layout"@,
        " index.json"@ == seq![' '] + "index.json"@,
        " blobs/sha256"@ == seq![' '] + "blobs/sha256"@,
{
    reveal_strlit(" oci-layout");
    reveal_strlit("oci-layout");
    reveal_strlit(" index.json");
    reveal_strlit("index.json");
    reveal_strlit(" blobs/sha256");
    reveal_strlit("blobs/sha256");
    assert(" oci-layout"@ == seq![' '] + "oci-layout"@);
    assert(" index.json"@ == seq![' '] + "index.json"@);
    assert(" blobs/sha256"@ == seq![' '] + "blobs/sha256"@);
}

proof fn lemma_oci_scheme(r: Seq<char>, f: PathFacts)
    requires
        starts_with(r, "oci:"@),
    ensures
        resolution(r, f) == if f.complete_layout() {
            Some(r)
        } else {
            None
        },
{
    reveal_strlit("docker://");
    reveal_strlit("containers-storage:");
    reveal_strlit("oci:");
    lemma_prefix_char(r, "oci:"@, 0);
    if starts_with(r, "docker://"@) {
        lemma_prefix_char(r, "docker://"@, 0);
    }
    if starts_with(r, "containers-storage:"@) {
        lemma_prefix_char(r, "containers-storage:"@, 0);
    }
}

/// The error detail for an incomplete layout names every missing member.
proof fn lemma_detail_names(path: Seq<char>, f: PathFacts)
    ensures
        !f.layout_marker ==> contains(layout_error_detail(path, f), "oci-layout"@),
        !f.index ==> contains(layout_error_detail(path, f), "index.json"@),
        !f.blobs ==> contains(layout_error_detail(path, f), "blobs/sha256"@),
{
    lemma_spaced_words();
    let head = "Invalid OCI layout in "@ + path + ": missing"@;
    let l = if !f.layout_marker { " oci-layout"@ } else { Seq::empty() };
    let x = if !f.index { " index.json"@ } else { Seq::empty() };
    let b = if !f.blobs { " blobs/sha256"@ } else { Seq::empty() };
    assert(layout_error_detail(path, f) == head + l + x + b);
    if !f.layout_marker {
        lemma_named(head, "oci-layout"@, x + b);
        assert(head + seq![' '] + "oci-layout"@ + (x + b) == head + l + x + b);
    }
    if !f.index {
        lemma_named(head + l, "index.json"@, b);
        assert(head + l + seq![' '] + "index.json"@ + b == head + l + x + b);
    }
    if !f.blobs {
        lemma_named(head + l + x, "blobs/sha256"@, Seq::empty());
        assert(head + l + x + seq![' '] + "blobs/sha256"@ + Seq::<char>::empty() == head + l + x
            + b);
    }
}

/// An `oci:` reference to an existing directory resolves, to itself, exactly
/// when the layout marker, the index and the blob directory are all present;
/// the error detail for an incomplete layout names every member that is missing.
pub proof fn law_oci_layout_members(r: Seq<char>, f: PathFacts)
    requires
        starts_with(r, "oci:"@),
        f.exists,
    ensures
        resolution(r, f) is Some <==> (f.layout_marker && f.index && f.blobs),
        resolution(r, f) is Some ==> resolution(r, f)->Some_0 == r,
        !f.layout_marker ==> contains(rejection_detail(r, f), "oci-layout"@),
        !f.index ==> contains(rejection_detail(r, f), "index.json"@),
        !f.blobs ==> contains(rejection_detail(r, f), "blobs/sha256"@),
{
    lemma_oci_scheme(r, f);
    lemma_detail_names(path_part(oci_rest(r)), f);
    reveal_strlit("docker://");
    reveal_strlit("oci:");
    lemma_prefix_char(r, "oci:"@, 0);
    if starts_with(r, "docker://"@) {
        lemma_prefix_char(r, "docker://"@, 0);
    }
}

} // verus!
