//! What can stop the packaging of one target.

use vstd::prelude::*;
use vstd::string::*;

verus! {

/// The cause of a failure. Each one ends the pipeline of its own target and
/// of no other.
#[derive(Debug, Clone, PartialEq, Eq)]
pub enum PackError {
    /// The build system knows nothing of the target and no name can be
    /// derived for it.
    TargetNotResolved,
    /// The build of the target ended with a failure status.
    BuildFailed,
    /// No built output of the target was found where outputs are kept.
    OutputNotFound,
    /// The build system's report names no output path.
    ParseError,
    /// A file of the output could not be read.
    ContentReadFailure { path: String },
    /// The archive or its sidecar could not be written.
    ArchiveWriteFailure,
    /// The artifact could not be copied to a local destination.
    IoError,
    /// The transfer to a remote destination ended with a failure status.
    UploadFailed,
}

impl PackError {
    /// The description of the failure for the final report.
    pub open spec fn text(self, target: Seq<char>) -> Seq<char> {
        match self {
            PackError::TargetNotResolved => "Target not found in query output"@,
            PackError::BuildFailed => "Build failed for "@ + target,
            PackError::OutputNotFound => "No built package found for "@ + target,
            PackError::ParseError => "Failed to parse build output"@,
            PackError::ContentReadFailure { path } => "Failed to read "@ + path@,
            PackError::ArchiveWriteFailure => "Failed to write archive"@,
            PackError::IoError => "Failed to copy artifact"@,
            PackError::UploadFailed => "Upload failed"@,
        }
    }

    /// Describes the failure for the final report.
    pub fn message(&self, target: &str) -> (out: String)
        ensures
            out@ == self.text(target@),
    {
        match self {
            PackError::TargetNotResolved => String::from_str("Target not found in query output"),
            PackError::BuildFailed => {
                let mut out = String::from_str("Build failed for ");
                out.append(target);
                out
            },
            PackError::OutputNotFound => {
                let mut out = String::from_str("No built package found for ");
                out.append(target);
                out
            },
            PackError::ParseError => String::from_str("Failed to parse build output"),
            PackError::ContentReadFailure { path } => {
                let mut out = String::from_str("Failed to read ");
                out.append(path.as_str());
                out
            },
            PackError::ArchiveWriteFailure => String::from_str("Failed to write archive"),
            PackError::IoError => String::from_str("Failed to copy artifact"),
            PackError::UploadFailed => String::from_str("Upload failed"),
        }
    }
}

} // verus!
