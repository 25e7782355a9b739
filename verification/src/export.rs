//! Export formats and the checks that precede any write of rendered pixels.
//!
//! The pixel encoding and the file write themselves happen outside this
//! crate; what is verified here is everything decided before a write is
//! attempted: the path must already have resolved, its extension must be an
//! accepted image format, and the pixel buffer must hold exactly
//! `width * height * 4` bytes.
use vstd::prelude::*;
use vstd::string::StringExecFns;
use crate::error::ExportError;
use crate::error::GrainError;
use crate::validation::allowed_extension;
use crate::validation::extension_of;
use crate::validation::has_extension;
use crate::validation::lower_seq;
use crate::validation::lowered_chars;
use crate::validation::validate_export_path;

verus! {

/// Image formats the export sink accepts.
#[derive(Debug, Clone, Copy, PartialEq, Eq, Structural)]
pub enum ExportFormat {
    Png,
    Tiff,
    Exr,
}

/// The format chosen for an extension, compared case-insensitively;
/// `tif` and `tiff` both select `Tiff`.
pub open spec fn format_for(e: Seq<char>) -> Option<ExportFormat> {
    let l = lower_seq(e);
    if l == seq!['p', 'n', 'g'] {
        Some(ExportFormat::Png)
    } else if l == seq!['t', 'i', 'f'] || l == seq!['t', 'i', 'f', 'f'] {
        Some(ExportFormat::Tiff)
    } else if l == seq!['e', 'x', 'r'] {
        Some(ExportFormat::Exr)
    } else {
        None
    }
}

impl ExportFormat {
    /// The canonical file extension of this format.
    pub fn extension(&self) -> (r: &'static str)
        ensures
            self is Png ==> r@ == "png"@,
            self is Tiff ==> r@ == "tiff"@,
            self is Exr ==> r@ == "exr"@,
    {
        match self {
            ExportFormat::Png => "png",
            ExportFormat::Tiff => "tiff",
            ExportFormat::Exr => "exr",
        }
    }

    /// The format an extension selects, if any.
    pub fn from_extension(ext: &str) -> (r: Option<ExportFormat>)
        ensures
            r == format_for(ext@),
    {
        let l = lowered_chars(ext);
        if l.len() == 3 {
            let f = if l[0] == 'p' && l[1] == 'n' && l[2] == 'g' {
                Some(ExportFormat::Png)
            } else if l[0] == 't' && l[1] == 'i' && l[2] == 'f' {
                Some(ExportFormat::Tiff)
            } else if l[0] == 'e' && l[1] == 'x' && l[2] == 'r' {
                Some(ExportFormat::Exr)
            } else {
                None
            };
            proof {
                if l@ =~= seq!['p', 'n', 'g'] || l@ =~= seq!['t', 'i', 'f'] || l@ =~= seq![
                    'e',
                    'x',
                    'r',
                ] {
                }
                assert(l@.len() != 4);
            }
            f
        } else if l.len() == 4 {
            let f = if l[0] == 't' && l[1] == 'i' && l[2] == 'f' && l[3] == 'f' {
                Some(ExportFormat::Tiff)
            } else {
                None
            };
            proof {
                if l@ =~= seq!['t', 'i', 'f', 'f'] {
                }
                assert(l@.len() != 3);
            }
            f
        } else {
            proof {
                assert(l@.len() != 3 && l@.len() != 4);
            }
            None
        }
    }
}

/// The number of bytes a `width` by `height` four-channel, 8-bit image
/// occupies.
pub open spec fn rgba_byte_len(width: u32, height: u32) -> int {
    width * height * 4
}

/// Whether `data` holds exactly one RGBA pixel per output position.
pub fn rgba_size_matches(data: &[u8], width: u32, height: u32) -> (b: bool)
    ensures
        b == (data@.len() == rgba_byte_len(width, height)),
{
    let w = width as u128;
    let h = height as u128;
    proof {
        assert(w * h * 4 <= 0xFFFF_FFFFu128 * 0xFFFF_FFFFu128 * 4) by (nonlinear_arith)
            requires
                w <= 0xFFFF_FFFFu128,
                h <= 0xFFFF_FFFFu128,
        ;
    }
    let expected: u128 = w * h * 4;
    (data.len() as u128) == expected
}

/// Check an export request before any write is attempted: the path must
/// have resolved (`canonical` is its canonicalized form, `None` if it did
/// not), carry an accepted extension, and the pixel buffer must be exactly
/// `width * height * 4` bytes. Returns the validated path to write to;
/// nothing is written here.
pub fn prepare_export(data: &[u8], width: u32, height: u32, canonical: Option<&str>) -> (r: Result<
    String,
    GrainError,
>)
    ensures
        r is Ok <==> {
            &&& canonical is Some
            &&& has_extension(canonical->0@)
            &&& allowed_extension(extension_of(canonical->0@))
            &&& data@.len() == rgba_byte_len(width, height)
        },
        r matches Ok(q) ==> q@ == canonical->0@,
        canonical is None ==> r == Err::<String, GrainError>(
            GrainError::Export(ExportError::InvalidPath),
        ),
        canonical matches Some(p) && !(has_extension(p@) && allowed_extension(extension_of(p@)))
            ==> r == Err::<String, GrainError>(GrainError::Export(ExportError::InvalidExtension)),
        canonical matches Some(p) && has_extension(p@) && allowed_extension(extension_of(p@))
            && data@.len() != rgba_byte_len(width, height) ==> (r matches Err(
            GrainError::Export(ExportError::WriteFailed(m)),
        ) && m@ == "Data size mismatch"@),
{
    let path = match validate_export_path(canonical) {
        Ok(p) => p,
        Err(e) => {
            return Err(GrainError::Export(e));
        },
    };
    if !rgba_size_matches(data, width, height) {
        return Err(
            GrainError::Export(ExportError::WriteFailed(String::from_str("Data size mismatch"))),
        );
    }
    Ok(path)
}

} // verus!
