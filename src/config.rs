//! The project configuration: what the metadata packer is told about the application.

use vstd::prelude::*;
use cargo_metadata::Metadata;
use crate::cli::{opt_text, texts};

verus! {

/// cargo_metadata's `Metadata`, the parsed output of `cargo metadata`; it is
/// only carried through, and read by `root_package` below.
#[verifier::external_type_specification]
#[verifier::external_body]
pub struct ExMetadata(Metadata);

/// The fields of the workspace's root package that the build reads.
pub struct PackageInfo {
    pub name: String,
    pub authors: Vec<String>,
    pub description: Option<String>,
}

/// Name, author, description and icon of the application.
pub struct CTRConfig {
    pub name: String,
    pub author: String,
    pub description: String,
    pub icon: String,
}

/// Why no configuration could be made.
#[derive(Clone, Copy, Debug, PartialEq, Eq, Structural)]
pub enum ProbeError {
    /// The workspace has no root package.
    NoRootPackage,
    /// The root package names no author, or an empty one.
    NoAuthor,
    /// There is no `./icon.png` and `DEVKITPRO` is not set.
    MissingDevkitPro,
}

pub open spec fn local_icon() -> Seq<char> {
    "./icon.png"@
}

pub open spec fn default_description() -> Seq<char> {
    "Homebrew Application"@
}

/// The icon used: the local one when it exists, else the SDK's default icon.
pub open spec fn icon_choice(icon_present: bool, devkitpro: Option<Seq<char>>) -> Option<
    Seq<char>,
> {
    if icon_present {
        Some(local_icon())
    } else if devkitpro.is_some() {
        Some(devkitpro.unwrap() + "/libctru/default_icon.png"@)
    } else {
        None
    }
}

pub open spec fn description_choice(d: Option<Seq<char>>) -> Seq<char> {
    if d.is_some() && d.unwrap().len() > 0 {
        d.unwrap()
    } else {
        default_description()
    }
}

/// A package as the build reads it: name, authors, description.
pub type PackageModel = (Seq<char>, Seq<Seq<char>>, Option<Seq<char>>);

/// The root package of the workspace that `meta` describes, if it has one.
pub uninterp spec fn root_package_of(meta: Metadata) -> Option<PackageModel>;

impl PackageInfo {
    pub open spec fn model(&self) -> PackageModel {
        (self.name@, texts(self.authors@), opt_text(self.description))
    }
}

/// The package names a first author, and that author is not empty.
pub open spec fn has_author(pkg: PackageModel) -> bool {
    pkg.1.len() > 0 && pkg.1[0].len() > 0
}

impl CTRConfig {
    /// The four fields as character sequences: name, author, description, icon.
    pub open spec fn fields(&self) -> (Seq<char>, Seq<char>, Seq<char>, Seq<char>) {
        (self.name@, self.author@, self.description@, self.icon@)
    }
}

/// The configuration that a package, the presence of `./icon.png` and the
/// value of `DEVKITPRO` give.
pub open spec fn probe_outcome(
    pkg: PackageModel,
    icon_present: bool,
    devkitpro: Option<Seq<char>>,
) -> Result<(Seq<char>, Seq<char>, Seq<char>, Seq<char>), ProbeError> {
    if !has_author(pkg) {
        Err(ProbeError::NoAuthor)
    } else if icon_choice(icon_present, devkitpro).is_none() {
        Err(ProbeError::MissingDevkitPro)
    } else {
        Ok(
            (
                pkg.0,
                pkg.1[0],
                description_choice(pkg.2),
                icon_choice(icon_present, devkitpro).unwrap(),
            ),
        )
    }
}

pub open spec fn result_fields(r: Result<CTRConfig, ProbeError>) -> Result<
    (Seq<char>, Seq<char>, Seq<char>, Seq<char>),
    ProbeError,
> {
    match r {
        Ok(c) => Ok(c.fields()),
        Err(e) => Err(e),
    }
}

/// Picks the icon path: `./icon.png` when it exists, else the default icon
/// under the SDK root.
pub fn icon_path(icon_present: bool, devkitpro: Option<String>) -> (r: Option<String>)
    ensures
        opt_text(r) == icon_choice(icon_present, opt_text(devkitpro)),
{
    if icon_present {
        Some(String::from_str("./icon.png"))
    } else {
        match devkitpro {
            Some(root) => Some(root.concat("/libctru/default_icon.png")),
            None => None,
        }
    }
}

/// Builds the configuration from the root package's fields.
pub fn config_from_package(pkg: &PackageInfo, icon_present: bool, devkitpro: Option<String>) -> (r:
    Result<CTRConfig, ProbeError>)
    ensures
        result_fields(r) == probe_outcome(pkg.model(), icon_present, opt_text(devkitpro)),
{
    assert(pkg.authors@.len() > 0 ==> texts(pkg.authors@)[0] == pkg.authors@[0]@);
    if pkg.authors.len() == 0 || pkg.authors[0].as_str().is_empty() {
        return Err(ProbeError::NoAuthor);
    }
    let icon = match icon_path(icon_present, devkitpro) {
        Some(i) => i,
        None => return Err(ProbeError::MissingDevkitPro),
    };
    let description = match &pkg.description {
        Some(d) => {
            if d.as_str().is_empty() {
                String::from_str("Homebrew Application")
            } else {
                d.clone()
            }
        },
        None => String::from_str("Homebrew Application"),
    };
    Ok(CTRConfig { name: pkg.name.clone(), author: pkg.authors[0].clone(), description, icon })
}

/// Relies on cargo_metadata's `Metadata::root_package`: the package whose id is
/// the resolve graph's root, if any. Its fields are copied out unchanged.
#[verifier::external_body]
fn root_package(meta: &Metadata) -> (r: Option<PackageInfo>)
    ensures
        r is None <==> root_package_of(*meta) is None,
        r matches Some(p) ==> root_package_of(*meta) == Some(p.model()),
{
    match meta.root_package() {
        Some(p) => Some(
            PackageInfo {
                name: p.name.clone(),
                authors: p.authors.clone(),
                description: p.description.clone(),
            },
        ),
        None => None,
    }
}

/// Builds the configuration from the workspace metadata: fails with
/// `NoRootPackage` exactly when the workspace has no root package, otherwise
/// gives what `config_from_package` gives on that package.
pub fn get_metadata(meta: &Metadata, icon_present: bool, devkitpro: Option<String>) -> (r: Result<
    CTRConfig,
    ProbeError,
>)
    ensures
        root_package_of(*meta) is None ==> r == Err::<CTRConfig, ProbeError>(
            ProbeError::NoRootPackage,
        ),
        root_package_of(*meta) is Some ==> result_fields(r) == probe_outcome(
            root_package_of(*meta).unwrap(),
            icon_present,
            opt_text(devkitpro),
        ),
{
    match root_package(meta) {
        None => Err(ProbeError::NoRootPackage),
        Some(pkg) => config_from_package(&pkg, icon_present, devkitpro),
    }
}

/// Icon fallback: for a package with an author, the icon is `./icon.png`
/// whenever that file exists, whatever `DEVKITPRO` holds; otherwise it is
/// `$DEVKITPRO/libctru/default_icon.png`, and without `DEVKITPRO` there is no
/// configuration.
pub proof fn lemma_icon_fallback(pkg: PackageModel, devkitpro: Option<Seq<char>>)
    requires
        has_author(pkg),
    ensures
        probe_outcome(pkg, true, devkitpro) is Ok,
        probe_outcome(pkg, true, devkitpro).unwrap().3 == local_icon(),
        devkitpro is Some ==> probe_outcome(pkg, false, devkitpro) is Ok && probe_outcome(
            pkg,
            false,
            devkitpro,
        ).unwrap().3 == devkitpro.unwrap() + "/libctru/default_icon.png"@,
        devkitpro is None ==> probe_outcome(pkg, false, devkitpro) == Err::<
            (Seq<char>, Seq<char>, Seq<char>, Seq<char>),
            ProbeError,
        >(ProbeError::MissingDevkitPro),
{
}

} // verus!
