use vstd::prelude::*;
use vstd::string::*;

verus! {

/// What can go wrong while a dependency is fetched, recorded or removed.
#[derive(Debug, Clone, PartialEq, Eq)]
pub enum PackageError {
    /// A manifest is already present where a new one was to be created.
    ManifestAlreadyExists,
    /// The manifest cannot be read as a document with a `dependencies` table.
    InvalidManifest,
    /// The manifest holds no entry for this dependency.
    DependencyNotFound { name: String },
    /// The version does not resolve to a revision of the repository at `url`.
    VersionNotFound { version: String, url: String },
    /// No tag of the mirror is a semantic version.
    NoTagsFound,
    /// Any other failure of the network or the file system.
    Infrastructure { message: String },
    /// The command exists but has no defined behaviour yet.
    NotSupported,
}

impl PackageError {
    /// The words that report the error.
    pub open spec fn message_text(self) -> Seq<char> {
        match self {
            PackageError::ManifestAlreadyExists => "'mod.toml' already exists"@,
            PackageError::InvalidManifest => "invalid 'mod.toml' format"@,
            PackageError::DependencyNotFound { name } => "Dependency '"@ + name@ + "' not found"@,
            PackageError::VersionNotFound { version, url } => "Version '"@ + version@
                + "' not found on '"@ + url@ + "'"@,
            PackageError::NoTagsFound => "No tags found"@,
            PackageError::Infrastructure { message } => message@,
            PackageError::NotSupported => "tidy is not supported"@,
        }
    }

    /// The words that report the error, with the name, version and address
    /// that it is about.
    pub fn message(&self) -> (r: String)
        ensures
            r@ == self.message_text(),
    {
        match self {
            PackageError::ManifestAlreadyExists => String::from_str("'mod.toml' already exists"),
            PackageError::InvalidManifest => String::from_str("invalid 'mod.toml' format"),
            PackageError::DependencyNotFound { name } => {
                let mut text = String::from_str("Dependency '");
                text.append(name.as_str());
                text.append("' not found");
                text
            },
            PackageError::VersionNotFound { version, url } => {
                let mut text = String::from_str("Version '");
                text.append(version.as_str());
                text.append("' not found on '");
                text.append(url.as_str());
                text.append("'");
                text
            },
            PackageError::NoTagsFound => String::from_str("No tags found"),
            PackageError::Infrastructure { message } => message.clone(),
            PackageError::NotSupported => String::from_str("tidy is not supported"),
        }
    }
}

} // verus!
