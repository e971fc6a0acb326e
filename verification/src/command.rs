//! The commands of the package manager and what each of them asks for.

use crate::error::PackageError;
use crate::fetch::{default_alias, folder_of, get, has_default_alias, is_dependency_name, url_of, FetchPlan};
use vstd::prelude::*;
use vstd::string::*;

verus! {

/// A command of the package manager.
#[derive(Debug, Clone, PartialEq, Eq)]
pub enum PackageCmd {
    /// Initializes a module.
    Init { name: String },
    /// Adds a dependency.
    Get { name: String, version: Option<String>, alias: Option<String> },
    /// Removes a dependency.
    Remove { name: String },
    /// Cleans up; not supported.
    Tidy,
}

/// What a command asks the caller to carry out.
#[derive(Debug, Clone, PartialEq, Eq)]
pub enum Task {
    /// Create the manifest with this content, unless one is there already.
    CreateManifest { content: String },
    /// Bring the mirror up to date, check the version out and record it.
    Fetch { plan: FetchPlan },
    /// Remove the dependency from the manifest, then delete its mirror.
    Remove { name: String },
}

/// The content of the manifest of a new module.
pub open spec fn manifest_of(name: Seq<char>) -> Seq<char> {
    "module = \""@ + name + "\""@
}

/// The content of the manifest of a new module: its name under `module`.
pub fn init(name: &str) -> (r: String)
    ensures
        r@ == manifest_of(name@),
{
    let mut content = String::from_str("module = \"");
    content.append(name);
    content.append("\"");
    content
}

/// The command names a dependency that can be worked on: one that is added
/// without an alias has a default alias.
pub open spec fn is_accepted(command: PackageCmd) -> bool {
    match command {
        PackageCmd::Get { name, version, alias } => alias.is_none() ==> has_default_alias(name@),
        _ => true,
    }
}

/// Whether the command names a dependency that can be worked on.
pub fn accepts(command: &PackageCmd) -> (r: bool)
    ensures
        r == is_accepted(*command),
{
    match command {
        PackageCmd::Get { name, version, alias } => alias.is_some() || is_dependency_name(
            name.as_str(),
        ),
        _ => true,
    }
}

/// Turns a command into the task that carries it out. `Tidy` is not
/// supported.
pub fn handle_package_cmd(command: PackageCmd) -> (r: Result<Task, PackageError>)
    requires
        is_accepted(command),
    ensures
        match command {
            PackageCmd::Init { name } => r matches Ok(Task::CreateManifest { content })
                && content@ == manifest_of(name@),
            PackageCmd::Get { name, version, alias } => r matches Ok(Task::Fetch { plan })
                && plan.name@ == name@ && plan.url@ == url_of(name@) && plan.folder@ == folder_of(
                match alias {
                    Some(a) => a@,
                    None => default_alias(name@),
                },
            ) && plan.version == version && plan.alias == alias,
            PackageCmd::Remove { name } => r matches Ok(Task::Remove { name: removed })
                && removed == name,
            PackageCmd::Tidy => r matches Err(PackageError::NotSupported),
        },
{
    match command {
        PackageCmd::Init { name } => Ok(Task::CreateManifest { content: init(name.as_str()) }),
        PackageCmd::Get { name, version, alias } => Ok(
            Task::Fetch { plan: get(name.as_str(), version, alias) },
        ),
        PackageCmd::Remove { name } => Ok(Task::Remove { name }),
        PackageCmd::Tidy => Err(PackageError::NotSupported),
    }
}

} // verus!
