//! The local storage layout.
//!
//! Every artifact of a resolved version lands at a fixed place below the game
//! root: `versions/<name>/<name>.json` and `.jar`, `versions/<name>/natives`,
//! `libraries/<artifact path>`, `assets/indexes/<id>.json`, and
//! `assets/objects/<first two hash digits>/<hash>` for content-addressed
//! assets. The functions here build those paths; the spec functions state
//! them exactly, so callers' contracts can speak of them.

use vstd::prelude::*;
use vstd::string::StrSliceExecFns;
use vstd::string::StringExecFns;

verus! {

/// `versions/<name>/<name>.json`: the persisted per-version manifest.
pub open spec fn version_json_path(name: Seq<char>) -> Seq<char> {
    "versions/"@ + name + "/"@ + name + ".json"@
}

/// `versions/<name>/<name>.jar`: the main client artifact.
pub open spec fn version_jar_path(name: Seq<char>) -> Seq<char> {
    "versions/"@ + name + "/"@ + name + ".jar"@
}

/// `versions/<name>/<file>`: a file stored beside the version manifest, such
/// as the client logging configuration.
pub open spec fn version_file_path(name: Seq<char>, file: Seq<char>) -> Seq<char> {
    "versions/"@ + name + "/"@ + file
}

/// `versions/<name>/natives`: the directory native archives are extracted to.
pub open spec fn natives_dir_path(name: Seq<char>) -> Seq<char> {
    "versions/"@ + name + "/natives"@
}

/// `libraries/<rel>`: a library artifact below the shared library store.
pub open spec fn library_path(rel: Seq<char>) -> Seq<char> {
    "libraries/"@ + rel
}

/// `assets/indexes/<id>.json`: the persisted asset index.
pub open spec fn asset_index_path(id: Seq<char>) -> Seq<char> {
    "assets/indexes/"@ + id + ".json"@
}

/// `assets/objects/<hash[0:2]>/<hash>`: the content-addressed destination of
/// an asset object.
pub open spec fn asset_object_path(hash: Seq<char>) -> Seq<char>
    recommends
        hash.len() >= 2,
{
    "assets/objects/"@ + hash.subrange(0, 2) + "/"@ + hash
}

/// The source URL of an asset object, derived from its content hash.
pub open spec fn asset_object_url(hash: Seq<char>) -> Seq<char>
    recommends
        hash.len() >= 2,
{
    "https://resources.download.minecraft.net/"@ + hash.subrange(0, 2) + "/"@ + hash
}

/// `<root>/<rel>`: a relative path resolved against the game root.
pub open spec fn under_root(root: Seq<char>, rel: Seq<char>) -> Seq<char> {
    root + "/"@ + rel
}

pub fn build_version_json_path(name: &str) -> (r: String)
    ensures
        r@ == version_json_path(name@),
{
    let mut s = String::from_str("versions/");
    s.append(name);
    s.append("/");
    s.append(name);
    s.append(".json");
    s
}

pub fn build_version_jar_path(name: &str) -> (r: String)
    ensures
        r@ == version_jar_path(name@),
{
    let mut s = String::from_str("versions/");
    s.append(name);
    s.append("/");
    s.append(name);
    s.append(".jar");
    s
}

pub fn build_version_file_path(name: &str, file: &str) -> (r: String)
    ensures
        r@ == version_file_path(name@, file@),
{
    let mut s = String::from_str("versions/");
    s.append(name);
    s.append("/");
    s.append(file);
    s
}

pub fn build_natives_dir_path(name: &str) -> (r: String)
    ensures
        r@ == natives_dir_path(name@),
{
    let mut s = String::from_str("versions/");
    s.append(name);
    s.append("/natives");
    s
}

pub fn build_library_path(rel: &str) -> (r: String)
    ensures
        r@ == library_path(rel@),
{
    let mut s = String::from_str("libraries/");
    s.append(rel);
    s
}

pub fn build_asset_index_path(id: &str) -> (r: String)
    ensures
        r@ == asset_index_path(id@),
{
    let mut s = String::from_str("assets/indexes/");
    s.append(id);
    s.append(".json");
    s
}

pub fn build_asset_object_path(hash: &str) -> (r: String)
    requires
        hash@.len() >= 2,
    ensures
        r@ == asset_object_path(hash@),
{
    let two = hash.substring_char(0, 2);
    let mut s = String::from_str("assets/objects/");
    s.append(two);
    s.append("/");
    s.append(hash);
    s
}

pub fn build_asset_object_url(hash: &str) -> (r: String)
    requires
        hash@.len() >= 2,
    ensures
        r@ == asset_object_url(hash@),
{
    let two = hash.substring_char(0, 2);
    let mut s = String::from_str("https://resources.download.minecraft.net/");
    s.append(two);
    s.append("/");
    s.append(hash);
    s
}

pub fn build_under_root(root: &str, rel: &str) -> (r: String)
    ensures
        r@ == under_root(root@, rel@),
{
    let mut s = String::from_str(root);
    s.append("/");
    s.append(rel);
    s
}

} // verus!
