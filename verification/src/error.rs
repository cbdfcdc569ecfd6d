//! Why a build fails. Every failure is fatal: the build stops at the first.

use vstd::prelude::*;
use vstd::string::*;
use crate::manifest::{Variant, macro_segment};

verus! {

/// A failure of the build.
#[derive(Debug)]
pub enum BuildError {
    /// The manifest does not exist.
    ManifestMissing,
    /// The manifest is no valid document, or lacks a required field.
    ManifestParse { detail: String },
    /// A declared project has no directory below the source root.
    ProjectDirectoryMissing { project: String },
    /// The compiler or its options could not be set up.
    CompilerInit,
    /// Neither candidate path of an included file exists. `path` is the one
    /// tried last.
    IncludeNotFound { path: String },
    /// The compiler refused a source file.
    Compile { file: String, diagnostic: String },
    /// A file or directory could not be read, written or created.
    Io { path: String },
}

/// The path of the manifest.
pub fn manifest_path() -> (path: &'static str)
    ensures
        path@ == "src/make_shaders.yaml"@,
{
    "src/make_shaders.yaml"
}

impl BuildError {
    /// The text that describes the failure.
    pub open spec fn message_text(&self) -> Seq<char> {
        match self {
            BuildError::ManifestMissing => "The make_shaders.yaml file is not found."@,
            BuildError::ManifestParse { detail } => "Failed to parse src/make_shaders.yaml file: "@
                + detail@,
            BuildError::ProjectDirectoryMissing { project } => "The shader project directory is not found: src/"@
                + project@,
            BuildError::CompilerInit => "Failed to initialize the shader compiler."@,
            BuildError::IncludeNotFound { path } => "Failed to read file: "@ + path@,
            BuildError::Compile { file, diagnostic } => "Failed to compile "@ + file@ + ": "@
                + diagnostic@,
            BuildError::Io { path } => "Failed to access: "@ + path@,
        }
    }

    /// The text that describes the failure.
    pub fn message(&self) -> (text: String)
        ensures
            text@ == self.message_text(),
    {
        match self {
            BuildError::ManifestMissing => String::from_str(
                "The make_shaders.yaml file is not found.",
            ),
            BuildError::ManifestParse { detail } => {
                let mut text = String::from_str("Failed to parse src/make_shaders.yaml file: ");
                text.append(detail.as_str());
                text
            },
            BuildError::ProjectDirectoryMissing { project } => {
                let mut text = String::from_str(
                    "The shader project directory is not found: src/",
                );
                text.append(project.as_str());
                text
            },
            BuildError::CompilerInit => String::from_str(
                "Failed to initialize the shader compiler.",
            ),
            BuildError::IncludeNotFound { path } => {
                let mut text = String::from_str("Failed to read file: ");
                text.append(path.as_str());
                text
            },
            BuildError::Compile { file, diagnostic } => {
                let mut text = String::from_str("Failed to compile ");
                text.append(file.as_str());
                text.append(": ");
                text.append(diagnostic.as_str());
                text
            },
            BuildError::Io { path } => {
                let mut text = String::from_str("Failed to access: ");
                text.append(path.as_str());
                text
            },
        }
    }

    /// The report of a failure while `variant` was compiled: the project,
    /// the variant's macros joined by `#` in square brackets, and the
    /// failure's own text.
    pub fn report(&self, variant: &Variant) -> (text: String)
        ensures
            text@ == variant@.project + " ["@ + macro_segment(variant@.optional_macros) + "]: "@
                + self.message_text(),
    {
        let mut text = String::from_str(variant.project.as_str());
        text.append(" [");
        let segment = variant.macro_segment();
        text.append(segment.as_str());
        text.append("]: ");
        let message = self.message();
        text.append(message.as_str());
        text
    }
}

} // verus!
