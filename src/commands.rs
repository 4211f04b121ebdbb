use vstd::prelude::*;
use crate::json::{json_quote, json_string};
use crate::quote::{quote_word, quoted};

verus! {

/// Lists the store's images as `name:tag` lines.
pub open spec fn list_images_command() -> Seq<char> {
    "buildah images --format '{{.Name}}:{{.Tag}}'"@
}

pub fn list_images() -> (r: String)
    ensures
        r@ == list_images_command(),
{
    "buildah images --format '{{.Name}}:{{.Tag}}'".to_owned()
}

/// Copies the image `source` into the store as `dest` with the fast copy tool.
pub open spec fn skopeo_copy_command(source: Seq<char>, dest: Seq<char>) -> Seq<char> {
    "skopeo copy --insecure-policy '"@ + source + "' 'containers-storage:"@ + dest + "'"@
}

pub fn skopeo_copy(source: &str, dest: &str) -> (r: String)
    ensures
        r@ == skopeo_copy_command(source@, dest@),
{
    let mut r = "skopeo copy --insecure-policy '".to_owned();
    r.append(source);
    r.append("' 'containers-storage:");
    r.append(dest);
    r.append("'");
    r
}

/// Instantiates a working container from `image`.
pub open spec fn from_command(image: Seq<char>) -> Seq<char> {
    "buildah from '"@ + image + "'"@
}

pub fn buildah_from(image: &str) -> (r: String)
    ensures
        r@ == from_command(image@),
{
    let mut r = "buildah from '".to_owned();
    r.append(image);
    r.append("'");
    r
}

/// Commits `container` as the image `name`.
pub open spec fn commit_command(container: Seq<char>, name: Seq<char>) -> Seq<char> {
    "buildah commit '"@ + container + "' '"@ + name + "'"@
}

pub fn buildah_commit(container: &str, name: &str) -> (r: String)
    ensures
        r@ == commit_command(container@, name@),
{
    let mut r = "buildah commit '".to_owned();
    r.append(container);
    r.append("' '");
    r.append(name);
    r.append("'");
    r
}

/// Removes `container`.
pub open spec fn remove_command(container: Seq<char>) -> Seq<char> {
    "buildah rm '"@ + container + "'"@
}

pub fn buildah_rm(container: &str) -> (r: String)
    ensures
        r@ == remove_command(container@),
{
    let mut r = "buildah rm '".to_owned();
    r.append(container);
    r.append("'");
    r
}

/// Runs the shell script `script` as root inside `container`.
pub open spec fn run_as_root_command(container: Seq<char>, script: Seq<char>) -> Seq<char> {
    "buildah run --user root '"@ + container + "' -- sh -lc "@ + quoted(script, true)
}

pub fn buildah_run_as_root(container: &str, script: &str) -> (r: String)
    ensures
        r@ == run_as_root_command(container@, script@),
{
    let mut r = "buildah run --user root '".to_owned();
    r.append(container);
    r.append("' -- sh -lc ");
    let q = quote_word(script, true);
    r.append(q.as_str());
    r
}

/// Makes sure the interpreter and its package installer are usable in a
/// build container; every part of it is allowed to fail.
pub open spec fn bootstrap_script() -> Seq<char> {
    "command -v python3 >/dev/null 2>&1 || true; command -v pip3 >/dev/null 2>&1 || python3 -m ensurepip --upgrade >/dev/null 2>&1 || true; [ -x /usr/bin/python3 ] || ln -sf $(command -v python3) /usr/bin/python3 || true"@
}

pub fn bootstrap() -> (r: String)
    ensures
        r@ == bootstrap_script(),
{
    "command -v python3 >/dev/null 2>&1 || true; command -v pip3 >/dev/null 2>&1 || python3 -m ensurepip --upgrade >/dev/null 2>&1 || true; [ -x /usr/bin/python3 ] || ln -sf $(command -v python3) /usr/bin/python3 || true".to_owned()
}

/// The installer invocation without its arguments: no prompts, no user
/// config, no version check, into the system-wide location.
pub open spec fn pip_base() -> Seq<char> {
    "env PIP_CONFIG_FILE=/dev/null PIP_ROOT_USER_ACTION=ignore python3 -m pip install --no-cache-dir --no-user --disable-pip-version-check --break-system-packages"@
}

/// Each package as a separate quoted argument.
pub open spec fn package_args(packages: Seq<Seq<char>>) -> Seq<char>
    decreases packages.len(),
{
    if packages.len() == 0 {
        Seq::empty()
    } else {
        package_args(packages.drop_last()) + seq![' '] + quoted(packages.last(), true)
    }
}

pub open spec fn index_args(index_url: Option<Seq<char>>, extra_index_url: Option<Seq<char>>) -> Seq<char> {
    (match index_url {
        Some(u) => " --index-url "@ + quoted(u, true),
        None => Seq::empty(),
    }) + (match extra_index_url {
        Some(u) => " --extra-index-url "@ + quoted(u, true),
        None => Seq::empty(),
    })
}

pub open spec fn pip_command(
    packages: Seq<Seq<char>>,
    index_url: Option<Seq<char>>,
    extra_index_url: Option<Seq<char>>,
) -> Seq<char> {
    pip_base() + index_args(index_url, extra_index_url) + package_args(packages)
}

pub open spec fn views(v: Seq<String>) -> Seq<Seq<char>> {
    v.map_values(|s: String| s@)
}

pub open spec fn opt_view(o: Option<&str>) -> Option<Seq<char>> {
    match o {
        Some(s) => Some(s@),
        None => None,
    }
}

pub fn pip_install(packages: &Vec<String>, index_url: Option<&str>, extra_index_url: Option<&str>) -> (r: String)
    ensures
        r@ == pip_command(views(packages@), opt_view(index_url), opt_view(extra_index_url)),
{
    let mut r = "env PIP_CONFIG_FILE=/dev/null PIP_ROOT_USER_ACTION=ignore python3 -m pip install --no-cache-dir --no-user --disable-pip-version-check --break-system-packages".to_owned();
    if let Some(u) = index_url {
        r.append(" --index-url ");
        r.append(quote_word(u, true).as_str());
    }
    if let Some(u) = extra_index_url {
        r.append(" --extra-index-url ");
        r.append(quote_word(u, true).as_str());
    }
    let ghost head = r@;
    assert(head == pip_base() + index_args(opt_view(index_url), opt_view(extra_index_url)));
    let mut i: usize = 0;
    while i < packages.len()
        invariant
            i <= packages.len(),
            r@ == head + package_args(views(packages@.subrange(0, i as int))),
        decreases packages.len() - i,
    {
        assert(views(packages@.subrange(0, i + 1)).drop_last() == views(packages@.subrange(0, i as int)));
        r.append(" ");
        proof {
            reveal_strlit(" ");
        }
        r.append(quote_word(packages[i].as_str(), true).as_str());
        i = i + 1;
    }
    assert(packages@.subrange(0, packages.len() as int) == packages@);
    r
}

/// The sentinel record written after the default image was imported: a
/// JSON object whose three fields are JSON strings.
pub open spec fn sentinel_record(image: Seq<char>, layout_dir: Seq<char>, version: Seq<char>) -> Seq<char> {
    "{\n  \"image\": "@ + json_string(image) + ",\n  \"oci_path\": "@ + json_string(layout_dir)
        + ",\n  \"version\": "@ + json_string(version) + "\n}\n"@
}

pub fn sentinel(image: &str, layout_dir: &str, version: &str) -> (r: String)
    ensures
        r@ == sentinel_record(image@, layout_dir@, version@),
{
    let mut r = "{\n  \"image\": ".to_owned();
    r.append(json_quote(image).as_str());
    r.append(",\n  \"oci_path\": ");
    r.append(json_quote(layout_dir).as_str());
    r.append(",\n  \"version\": ");
    r.append(json_quote(version).as_str());
    r.append("\n}\n");
    r
}

} // verus!
