//! Error taxonomy: fatal device-acquisition failure, recoverable validation
//! and export errors, and wrapped I/O reports.
use vstd::prelude::*;
use vstd::string::StringExecFns;

verus! {

/// An export attempt that was rejected before or during the write.
#[derive(Debug, Clone, PartialEq)]
pub enum ExportError {
    /// The path did not resolve to an existing location.
    InvalidPath,
    /// The path resolved outside the allowed directories.
    PathNotAllowed,
    /// The extension is not one of the supported image formats.
    InvalidExtension,
    /// The write itself failed; the payload describes how.
    WriteFailed(String),
}

impl ExportError {
    pub open spec fn message_spec(&self) -> Seq<char> {
        match self {
            ExportError::InvalidPath => "Invalid path"@,
            ExportError::PathNotAllowed => "Path not allowed (must be inside allowed directories)"@,
            ExportError::InvalidExtension => "Invalid extension (allowed: png, tif, exr)"@,
            ExportError::WriteFailed(s) => "Write failed: "@ + s@,
        }
    }

    /// A human-readable description of the rejection.
    pub fn message(&self) -> (r: String)
        ensures
            r@ == self.message_spec(),
    {
        match self {
            ExportError::InvalidPath => String::from_str("Invalid path"),
            ExportError::PathNotAllowed => String::from_str(
                "Path not allowed (must be inside allowed directories)",
            ),
            ExportError::InvalidExtension => String::from_str(
                "Invalid extension (allowed: png, tif, exr)",
            ),
            ExportError::WriteFailed(s) => String::from_str("Write failed: ").concat(s.as_str()),
        }
    }
}

/// Any failure the grain core can surface to its caller.
#[derive(Debug, Clone, PartialEq)]
pub enum GrainError {
    /// No compute-capable device could be acquired; fatal at startup.
    GpuInit(String),
    /// A parameter edit or document field was rejected; the prior state is
    /// retained.
    InvalidParameter { name: String, reason: String },
    /// An export attempt failed; renderer and parameter state are unaffected.
    Export(ExportError),
    /// An input/output failure wrapped at the call site that performed it.
    Io(String),
}

impl GrainError {
    pub open spec fn message_spec(&self) -> Seq<char> {
        match self {
            GrainError::GpuInit(s) => "GPU initialization failed: "@ + s@,
            GrainError::InvalidParameter { name, reason } => "Invalid parameter '"@ + name@ + "': "@
                + reason@,
            GrainError::Export(e) => "Export failed: "@ + e.message_spec(),
            GrainError::Io(s) => "IO error: "@ + s@,
        }
    }

    /// A human-readable description of the failure.
    pub fn message(&self) -> (r: String)
        ensures
            r@ == self.message_spec(),
    {
        match self {
            GrainError::GpuInit(s) => String::from_str("GPU initialization failed: ").concat(
                s.as_str(),
            ),
            GrainError::InvalidParameter { name, reason } => {
                let mut m = String::from_str("Invalid parameter '");
                m.append(name.as_str());
                m.append("': ");
                m.append(reason.as_str());
                m
            },
            GrainError::Export(e) => String::from_str("Export failed: ").concat(
                e.message().as_str(),
            ),
            GrainError::Io(s) => String::from_str("IO error: ").concat(s.as_str()),
        }
    }
}

} // verus!
