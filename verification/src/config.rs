//! The part of the configuration that the server itself reads.

use crate::external::url_to_file_path;
use vstd::prelude::*;

verus! {

/// A path of the file system, in the encoding of `OsString::into_encoded_bytes`.
#[derive(Debug)]
pub struct FsPath {
    pub bytes: Vec<u8>,
}

impl View for FsPath {
    type V = Seq<u8>;

    open spec fn view(&self) -> Seq<u8> {
        self.bytes@
    }
}

impl Clone for FsPath {
    fn clone(&self) -> (path: Self)
        ensures
            path@ == self@,
    {
        FsPath { bytes: self.bytes.clone() }
    }
}

/// The configuration of the server.
#[derive(Debug)]
pub struct Config {
    /// The root of the workspace.
    pub root_path: FsPath,
    /// The `nix` program.
    pub nix_binary: FsPath,
    /// The files for which no diagnostics are calculated.
    pub diagnostics_excluded_files: Vec<String>,
}

/// A configuration as a value.
pub struct ConfigView {
    pub root_path: Seq<u8>,
    pub nix_binary: Seq<u8>,
    pub diagnostics_excluded_files: Seq<Seq<char>>,
}

/// The texts of a list of strings.
pub open spec fn texts(strings: Seq<String>) -> Seq<Seq<char>> {
    strings.map_values(|s: String| s@)
}

impl View for Config {
    type V = ConfigView;

    open spec fn view(&self) -> ConfigView {
        ConfigView {
            root_path: self.root_path@,
            nix_binary: self.nix_binary@,
            diagnostics_excluded_files: texts(self.diagnostics_excluded_files@),
        }
    }
}

impl ConfigView {
    /// Whether no diagnostics are calculated for the file `uri`.
    pub open spec fn excludes(self, uri: Seq<char>) -> bool {
        self.diagnostics_excluded_files.contains(uri)
    }
}

impl Config {
    /// Whether no diagnostics are calculated for the file `uri`.
    pub fn excludes(&self, uri: &String) -> (excluded: bool)
        ensures
            excluded == self@.excludes(uri@),
    {
        let files = &self.diagnostics_excluded_files;
        let mut i: usize = 0;
        while i < files.len()
            invariant
                files@ == self.diagnostics_excluded_files@,
                i <= files@.len(),
                forall|j: int| 0 <= j < i ==> texts(files@)[j] != uri@,
            decreases files@.len() - i,
        {
            assert(texts(files@)[i as int] == files@[i as int]@);
            if files[i] == *uri {
                return true;
            }
            i = i + 1;
        }
        false
    }
}

/// The path of the workspace root that the client names by `root_uri`, where it names one and it
/// is a path of the file system.
pub fn root_path(root_uri: Option<&String>) -> (path: Option<FsPath>)
    ensures
        match root_uri {
            Some(uri) => match path {
                Some(path) => crate::external::url_file_path(uri@) == Some(path@),
                None => crate::external::url_file_path(uri@) is None,
            },
            None => path is None,
        },
{
    match root_uri {
        Some(uri) => match url_to_file_path(uri.as_str()) {
            Some(bytes) => Some(FsPath { bytes }),
            None => None,
        },
        None => None,
    }
}

/// A file is excluded from diagnostics just where the configuration lists it.
pub proof fn law_excluded_files_are_the_listed_ones(config: Config, uri: String, excluded: bool)
    requires
        call_ensures(Config::excludes, (&config, &uri), excluded),
    ensures
        excluded <==> exists|i: int|
            0 <= i < config.diagnostics_excluded_files@.len() && (
            #[trigger] config.diagnostics_excluded_files@[i])@ == uri@,
{
    let files = config@.diagnostics_excluded_files;
    assert forall|i: int|
        0 <= i < config.diagnostics_excluded_files@.len() && (
        #[trigger] config.diagnostics_excluded_files@[i])@ == uri@ implies excluded by {
        assert(files[i] == uri@);
    }
    if excluded {
        let i = choose|i: int| 0 <= i < files.len() && files[i] == uri@;
        assert(config.diagnostics_excluded_files@[i]@ == uri@);
    }
}

/// The root of the workspace is the path of the URL that the client names, where the client names
/// one that has a path, and there is none otherwise.
pub proof fn law_root_is_the_named_path(root_uri: Option<&String>, path: Option<FsPath>)
    requires
        call_ensures(root_path, (root_uri,), path),
    ensures
        root_uri is None ==> path is None,
        root_uri matches Some(uri) ==> (path is Some <==> crate::external::url_file_path(
            uri@,
        ) is Some),
        root_uri matches Some(uri) ==> (path matches Some(root) ==> root.bytes@
            == crate::external::url_file_path(uri@)->0),
{
}

} // verus!
