//! Where the application comes from: a local manifest or a registry.

use vstd::prelude::*;
use vstd::string::*;

verus! {

/// The place an application is loaded from.
#[derive(Debug, Clone, PartialEq, Eq)]
pub enum AppSource {
    /// A local path: a manifest file, or a directory that holds one.
    File(String),
    /// A reference to an application in a registry.
    Registry(String),
}

/// The mathematical value of an `AppSource`.
pub enum AppSourceModel {
    File(Seq<char>),
    Registry(Seq<char>),
}

impl DeepView for AppSource {
    type V = AppSourceModel;

    open spec fn deep_view(&self) -> AppSourceModel {
        match self {
            AppSource::File(p) => AppSourceModel::File(p@),
            AppSource::Registry(r) => AppSourceModel::Registry(r@),
        }
    }
}

/// The name of the manifest file that is used when none is given.
pub open spec fn default_manifest_file() -> Seq<char> {
    "spin.toml"@
}

/// The source that a locator stands for: the default manifest when there is
/// none; the registry when the locator looks like a registry reference; else
/// the locator as a local path.
pub open spec fn infer_app_source_spec(
    provided: Option<Seq<char>>,
    looks_like_reference: bool,
) -> AppSourceModel {
    match provided {
        None => AppSourceModel::File(default_manifest_file()),
        Some(p) => if looks_like_reference {
            AppSourceModel::Registry(p)
        } else {
            AppSourceModel::File(p)
        },
    }
}

/// Decides where the application comes from. `looks_like_reference` says
/// whether the locator, where there is one, has the shape of a registry
/// reference; without a locator it is not looked at.
pub fn infer_app_source(provided: &Option<String>, looks_like_reference: bool) -> (r: AppSource)
    ensures
        r.deep_view() == infer_app_source_spec(provided.deep_view(), looks_like_reference),
{
    match provided {
        None => AppSource::File("spin.toml".to_owned()),
        Some(p) => if looks_like_reference {
            AppSource::Registry(p.clone())
        } else {
            AppSource::File(p.clone())
        },
    }
}

} // verus!
