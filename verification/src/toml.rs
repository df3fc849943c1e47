//! Cargo manifests, as far as the library reads them.

use crate::constants::filename;
use crate::path::{join, path_join};
use vstd::prelude::*;
use vstd::string::*;

verus! {

/// The `[workspace]` table of a manifest.
#[derive(Debug)]
pub struct Workspace {
    /// Globs of the directories that belong to the workspace.
    pub members: Vec<String>,
    /// Globs of the directories that are left out of it.
    pub exclude: Vec<String>,
}

/// What the library reads of a Cargo manifest.
#[derive(Debug)]
pub struct Manifest {
    /// The package name, where the manifest has a `[package]` table.
    pub package: Option<String>,
    /// The workspace, where the manifest has a `[workspace]` table.
    pub workspace: Option<Workspace>,
}

/// A workspace as the library reasons about it.
pub struct WorkspaceView {
    /// Globs of the directories that belong to the workspace.
    pub members: Seq<Seq<char>>,
    /// Globs of the directories that are left out of it.
    pub exclude: Seq<Seq<char>>,
}

/// A manifest as the library reasons about it.
pub struct ManifestView {
    /// The package name, if any.
    pub package: Option<Seq<char>>,
    /// The workspace, if any.
    pub workspace: Option<WorkspaceView>,
}

impl View for Workspace {
    type V = WorkspaceView;

    open spec fn view(&self) -> WorkspaceView {
        WorkspaceView { members: self.members.deep_view(), exclude: self.exclude.deep_view() }
    }
}

impl View for Manifest {
    type V = ManifestView;

    open spec fn view(&self) -> ManifestView {
        ManifestView {
            package: self.package.deep_view(),
            workspace: match self.workspace {
                Some(workspace) => Some(workspace@),
                None => None,
            },
        }
    }
}

/// The text is no Cargo manifest.
#[derive(Debug)]
pub struct InvalidManifest;

/// The error type of the TOML parser.
#[verifier::external_type_specification]
#[verifier::external_body]
pub struct ExTomlError(::toml::de::Error);

/// What parsing `content` as a Cargo manifest yields, where it is one: what
/// `toml::from_str` returns for the type `cargo_toml::Manifest`, reduced to
/// the package name and the workspace's members and excludes.
pub uninterp spec fn parsed_manifest(content: Seq<char>) -> Option<ManifestView>;

/// `toml::from_str` at the type `cargo_toml::Manifest`. The contract names
/// the result; of the manifest it keeps the package name and the workspace's
/// `members` and `exclude`.
#[verifier::external_body]
fn parse_manifest(content: &str) -> (r: Result<Manifest, ::toml::de::Error>)
    ensures
        match r {
            Ok(manifest) => parsed_manifest(content@) == Some(manifest@),
            Err(_) => parsed_manifest(content@) is None,
        },
{
    let manifest = ::toml::from_str::<cargo_toml::Manifest>(content)?;
    Ok(
        Manifest {
            package: manifest.package.map(|package| package.name),
            workspace: manifest.workspace.map(
                |workspace| Workspace { members: workspace.members, exclude: workspace.exclude },
            ),
        },
    )
}

/// Where the manifest of the project at `origin` lies: `<origin>/Cargo.toml`.
pub fn cargo_toml_path(origin: &str) -> (r: String)
    ensures
        r@ == path_join(origin@, filename::CARGO_TOML@),
{
    join(origin, filename::CARGO_TOML)
}

/// Parses the content of a `Cargo.toml`.
pub fn read_cargo_toml(content: &str) -> (r: Result<Manifest, InvalidManifest>)
    ensures
        match r {
            Ok(manifest) => parsed_manifest(content@) == Some(manifest@),
            Err(_) => parsed_manifest(content@) is None,
        },
{
    match parse_manifest(content) {
        Ok(manifest) => Ok(manifest),
        Err(_) => Err(InvalidManifest),
    }
}

} // verus!
