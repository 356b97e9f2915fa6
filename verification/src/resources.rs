//! Small resources and request values: where an asset comes from, what a spawn
//! request names, the save and load paths, and the flags of the inspection tools.

use vstd::prelude::*;
use vstd::string::StringExecFns;

verus! {

/// Where a model's files come from.
#[derive(Debug, Clone, PartialEq)]
pub enum AssetSource {
    /// A path inside a package.
    Package(String),
    /// A stand-in path.
    Placeholder(String),
}

impl Default for AssetSource {
    fn default() -> (r: Self)
        ensures
            r matches AssetSource::Placeholder(p) && p@ == "PLACE_HOLDER_PATH"@,
    {
        AssetSource::Placeholder(String::from_str("PLACE_HOLDER_PATH"))
    }
}

/// Where an asset to spawn is requested from: a path that the asset server knows
/// (relative to the assets folder), or the id of a handle that is already loaded.
#[derive(Debug, Clone, PartialEq)]
pub enum RequestFrom {
    AssetServerPath(String),
    AssetHandle(u64),
}

impl From<String> for RequestFrom {
    fn from(value: String) -> (r: Self) {
        RequestFrom::AssetServerPath(value)
    }
}

impl vstd::std_specs::convert::FromSpecImpl<String> for RequestFrom {
    open spec fn obeys_from_spec() -> bool {
        true
    }

    open spec fn from_spec(v: String) -> Self {
        RequestFrom::AssetServerPath(v)
    }
}

impl Default for RequestFrom {
    /// A path that says the default was used by mistake.
    fn default() -> (r: Self)
        ensures
            r matches RequestFrom::AssetServerPath(p)
                && p@ == "don't use default for RequestFrom enum or you will get this!"@,
    {
        RequestFrom::AssetServerPath(
            String::from_str("don't use default for RequestFrom enum or you will get this!"),
        )
    }
}

/// Number of refresh requests sent so far.
#[derive(Debug, Clone, Copy, PartialEq, Eq, Structural)]
pub struct RefreshCounter {
    pub counter: usize,
}

impl Default for RefreshCounter {
    fn default() -> (r: Self)
        ensures
            r.counter == 0,
    {
        RefreshCounter { counter: 0 }
    }
}

/// Whether the inspector lists the components that can be serialized.
#[derive(Debug, Clone, Copy, PartialEq, Eq, Structural)]
pub struct ShowSerializable {
    pub check: bool,
}

impl Default for ShowSerializable {
    fn default() -> (r: Self)
        ensures
            !r.check,
    {
        ShowSerializable { check: false }
    }
}

/// Whether the inspector lists the components that cannot be serialized.
#[derive(Debug, Clone, Copy, PartialEq, Eq, Structural)]
pub struct ShowUnserializable {
    pub check: bool,
}

impl Default for ShowUnserializable {
    fn default() -> (r: Self)
        ensures
            r.check,
    {
        ShowUnserializable { check: true }
    }
}

/// A request to save the world to `path`.
#[derive(Debug, Clone)]
pub struct SaveRequest {
    pub path: String,
}

impl SaveRequest {
    /// The file to save to.
    pub fn path(&self) -> (r: &str)
        ensures
            r@ == self.path@,
    {
        self.path.as_str()
    }
}

/// A request to load the world from `path`.
#[derive(Debug, Clone)]
pub struct LoadRequest {
    pub path: String,
}

impl LoadRequest {
    /// The file to load from.
    pub fn path(&self) -> (r: &str)
        ensures
            r@ == self.path@,
    {
        self.path.as_str()
    }
}

/// The file an assembled asset is saved to: its file name, a dot and the first of the
/// extensions its loader accepts.
pub open spec fn spec_save_file_path(file_name: Seq<char>, extensions: Seq<String>) -> Seq<char> {
    file_name + "."@ + extensions[0]@
}

/// The message when the loader of an asset accepts no extension.
pub open spec fn no_extension_message(file_name: Seq<char>) -> Seq<char> {
    "Asset for "@ + file_name + " has no file extensions. Exiting early"@
}

/// The path an assembled asset named `file_name` is written to, given the extensions
/// that its loader accepts; an error naming the asset when there is none.
pub fn save_file_path(file_name: &str, extensions: &Vec<String>) -> (r: Result<String, String>)
    ensures
        extensions@.len() > 0 ==> (r matches Ok(p) && p@ == spec_save_file_path(file_name@, extensions@)),
        extensions@.len() == 0 ==> (r matches Err(m) && m@ == no_extension_message(file_name@)),
{
    if extensions.len() == 0 {
        let mut m = String::from_str("Asset for ");
        m.append(file_name);
        m.append(" has no file extensions. Exiting early");
        return Err(m);
    }
    let mut p = String::from_str(file_name);
    p.append(".");
    p.append(extensions[0].as_str());
    Ok(p)
}

} // verus!
