//! What a run is aimed at: a single source file, a crate, or a workspace.

use crate::text::{contains, occurs_in};
use vstd::prelude::*;
use vstd::string::StringExecFns;

verus! {

/// What was found at a target path.
#[derive(Debug, PartialEq, Eq)]
pub struct PathFacts {
    /// Whether anything is there at all.
    pub found: bool,
    /// Whether it is a file, and no directory.
    pub is_file: bool,
    /// The extension of the path, if it has one.
    pub extension: Option<String>,
    /// Whether the directory holds a manifest, `Cargo.toml`.
    pub has_manifest: bool,
    /// The text of the manifest; empty where it could not be read.
    pub manifest: String,
}

/// The value of a [`PathFacts`].
pub struct PathFactsView {
    pub found: bool,
    pub is_file: bool,
    pub extension: Option<Seq<char>>,
    pub has_manifest: bool,
    pub manifest: Seq<char>,
}

impl DeepView for PathFacts {
    type V = PathFactsView;

    open spec fn deep_view(&self) -> PathFactsView {
        PathFactsView {
            found: self.found,
            is_file: self.is_file,
            extension: self.extension.deep_view(),
            has_manifest: self.has_manifest,
            manifest: self.manifest@,
        }
    }
}

impl View for PathFacts {
    type V = PathFactsView;

    open spec fn view(&self) -> PathFactsView {
        self.deep_view()
    }
}

/// The classification of a target path.
#[derive(Debug, PartialEq, Eq)]
pub enum TargetKind {
    /// A single `.rs` file.
    SingleFile(String),
    /// A crate: a directory with a manifest.
    Crate(String),
    /// A workspace: a directory whose manifest has a `[workspace]` section.
    Workspace(String),
}

/// Why a target path could not be classified.
#[derive(Debug, PartialEq, Eq)]
pub enum TargetError {
    /// Nothing is there.
    NotFound(String),
    /// The file is no `.rs` file.
    NotRustFile(String),
    /// The directory holds no manifest.
    NoManifest(String),
}

/// The value of a [`TargetKind`] or of the [`TargetError`] in its place.
pub enum Resolution {
    SingleFile(Seq<char>),
    Crate(Seq<char>),
    Workspace(Seq<char>),
    NotFound(Seq<char>),
    NotRustFile(Seq<char>),
    NoManifest(Seq<char>),
}

/// What a target resolves to.
pub open spec fn resolution(target: Result<TargetKind, TargetError>) -> Resolution {
    match target {
        Ok(TargetKind::SingleFile(path)) => Resolution::SingleFile(path@),
        Ok(TargetKind::Crate(path)) => Resolution::Crate(path@),
        Ok(TargetKind::Workspace(path)) => Resolution::Workspace(path@),
        Err(TargetError::NotFound(path)) => Resolution::NotFound(path@),
        Err(TargetError::NotRustFile(path)) => Resolution::NotRustFile(path@),
        Err(TargetError::NoManifest(path)) => Resolution::NoManifest(path@),
    }
}

/// What the path `path` resolves to, given what was found there. A file has
/// to have the extension `rs`. A directory has to hold a manifest, and is a
/// workspace if the manifest has the marker `[workspace]` in it, a crate
/// otherwise.
pub open spec fn resolve(path: Seq<char>, facts: PathFactsView) -> Resolution {
    if !facts.found {
        Resolution::NotFound(path)
    } else if facts.is_file {
        if facts.extension == Some("rs"@) {
            Resolution::SingleFile(path)
        } else {
            Resolution::NotRustFile(path)
        }
    } else if !facts.has_manifest {
        Resolution::NoManifest(path)
    } else if occurs_in(facts.manifest, "[workspace]"@) {
        Resolution::Workspace(path)
    } else {
        Resolution::Crate(path)
    }
}

/// The path that is meant where none is given: the current directory.
pub open spec fn path_or_here(raw: Option<Seq<char>>) -> Seq<char> {
    match raw {
        Some(path) => path,
        None => "."@,
    }
}

impl TargetKind {
    /// Classifies the target that the user gave, or the current directory if
    /// none was given. `facts` is what was found at that path.
    pub fn get_target(raw: Option<String>, facts: &PathFacts) -> (target: Result<
        TargetKind,
        TargetError,
    >)
        ensures
            resolution(target) == resolve(path_or_here(raw.deep_view()), facts@),
    {
        let path = match raw {
            Some(path) => path,
            None => String::from_str("."),
        };
        if !facts.found {
            return Err(TargetError::NotFound(path));
        }
        if facts.is_file {
            let rust = match &facts.extension {
                Some(extension) => *extension == String::from_str("rs"),
                None => false,
            };
            if !rust {
                return Err(TargetError::NotRustFile(path));
            }
            return Ok(TargetKind::SingleFile(path));
        }
        if !facts.has_manifest {
            return Err(TargetError::NoManifest(path));
        }
        if contains(facts.manifest.as_str(), "[workspace]") {
            Ok(TargetKind::Workspace(path))
        } else {
            Ok(TargetKind::Crate(path))
        }
    }
}

impl TargetError {
    /// The error, in words.
    pub fn message(&self) -> (message: String)
        ensures
            message@ == match self {
                TargetError::NotFound(path) => "target not found: "@ + path@,
                TargetError::NotRustFile(path) => "single-file mode requires a .rs file: "@
                    + path@,
                TargetError::NoManifest(path) => "no Cargo.toml in "@ + path@
                    + ". Provide a crate root or a single Rust file"@,
            },
    {
        match self {
            TargetError::NotFound(path) => String::from_str("target not found: ").concat(
                path.as_str(),
            ),
            TargetError::NotRustFile(path) => String::from_str(
                "single-file mode requires a .rs file: ",
            ).concat(path.as_str()),
            TargetError::NoManifest(path) => String::from_str("no Cargo.toml in ").concat(
                path.as_str(),
            ).concat(". Provide a crate root or a single Rust file"),
        }
    }
}

} // verus!
