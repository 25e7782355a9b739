use grainforge::error::ExportError;
use grainforge::error::GrainError;
use grainforge::export::ExportFormat;
use grainforge::export::prepare_export;
use grainforge::validation::BoundedFloat;
use grainforge::validation::validate_export_path;
use grainforge::validation::validate_name;

#[test]
fn bounded_float_keeps_in_range_value() {
    let b = BoundedFloat::new(500, 0, 2000);
    assert_eq!(b.get(), 500);
    assert_eq!(b.min, 0);
    assert_eq!(b.max, 2000);
}

#[test]
fn bounded_float_clamps_below() {
    let b = BoundedFloat::new(-100, 0, 1000);
    assert_eq!(b.get(), 0);
}

#[test]
fn bounded_float_clamps_above() {
    let b = BoundedFloat::new(5000, 0, 1000);
    assert_eq!(b.get(), 1000);
}

#[test]
fn bounded_float_set_clamps_both_ways() {
    let mut b = BoundedFloat::new(500, 0, 1000);
    b.set(-1);
    assert_eq!(b.get(), 0);
    b.set(1001);
    assert_eq!(b.get(), 1000);
    b.set(700);
    assert_eq!(b.get(), 700);
}

#[test]
fn bounded_float_default_is_zero_in_unit_interval() {
    let b = BoundedFloat::default();
    assert_eq!(b.get(), 0);
    assert_eq!(b.min, 0);
    assert_eq!(b.max, 1000);
}

#[test]
fn name_with_letters_space_hyphen_is_accepted() {
    assert!(validate_name("Kodak Tri-X").is_ok());
}

#[test]
fn name_of_65_characters_is_rejected() {
    let name: String = std::iter::repeat('a').take(65).collect();
    assert_eq!(name.chars().count(), 65);
    assert!(validate_name(&name).is_err());
}

#[test]
fn name_of_64_characters_is_accepted() {
    let name: String = std::iter::repeat('a').take(64).collect();
    assert!(validate_name(&name).is_ok());
}

#[test]
fn name_with_at_sign_is_rejected() {
    let r = validate_name("bad@name");
    assert!(matches!(r, Err(GrainError::InvalidParameter { .. })));
}

#[test]
fn empty_name_is_rejected() {
    assert!(validate_name("").is_err());
}

#[test]
fn unresolved_path_is_invalid_path() {
    assert_eq!(validate_export_path(None), Err(ExportError::InvalidPath));
}

#[test]
fn bmp_path_is_invalid_extension() {
    assert_eq!(
        validate_export_path(Some("/pictures/photo.bmp")),
        Err(ExportError::InvalidExtension)
    );
}

#[test]
fn png_path_is_accepted() {
    let r = validate_export_path(Some("/pictures/out.png"));
    assert_eq!(r, Ok("/pictures/out.png".to_string()));
}

#[test]
fn extension_case_is_ignored() {
    assert!(validate_export_path(Some("/pictures/out.PNG")).is_ok());
    assert!(validate_export_path(Some("/pictures/out.TiFf")).is_ok());
}

#[test]
fn tif_tiff_and_exr_are_accepted() {
    assert!(validate_export_path(Some("/p/a.tif")).is_ok());
    assert!(validate_export_path(Some("/p/a.tiff")).is_ok());
    assert!(validate_export_path(Some("/p/a.exr")).is_ok());
}

#[test]
fn path_without_extension_is_rejected() {
    assert_eq!(validate_export_path(Some("/p/noext")), Err(ExportError::InvalidExtension));
    assert_eq!(validate_export_path(Some("/p/.hidden")), Err(ExportError::InvalidExtension));
    assert_eq!(validate_export_path(Some("/p/trailing.")), Err(ExportError::InvalidExtension));
}

#[test]
fn dot_in_directory_does_not_count_as_extension() {
    assert_eq!(validate_export_path(Some("/a.png/file")), Err(ExportError::InvalidExtension));
}

#[test]
fn export_format_extensions() {
    assert_eq!(ExportFormat::Png.extension(), "png");
    assert_eq!(ExportFormat::Tiff.extension(), "tiff");
    assert_eq!(ExportFormat::Exr.extension(), "exr");
}

#[test]
fn export_format_from_extension() {
    assert_eq!(ExportFormat::from_extension("png"), Some(ExportFormat::Png));
    assert_eq!(ExportFormat::from_extension("PNG"), Some(ExportFormat::Png));
    assert_eq!(ExportFormat::from_extension("tif"), Some(ExportFormat::Tiff));
    assert_eq!(ExportFormat::from_extension("tiff"), Some(ExportFormat::Tiff));
    assert_eq!(ExportFormat::from_extension("exr"), Some(ExportFormat::Exr));
    assert_eq!(ExportFormat::from_extension("bmp"), None);
    assert_eq!(ExportFormat::from_extension(""), None);
}

#[test]
fn prepare_export_accepts_matching_buffer() {
    let data = vec![0u8; 2 * 2 * 4];
    let r = prepare_export(&data, 2, 2, Some("/p/out.png"));
    assert_eq!(r, Ok("/p/out.png".to_string()));
}

#[test]
fn prepare_export_rejects_size_mismatch() {
    let data = vec![0u8; 15];
    let r = prepare_export(&data, 2, 2, Some("/p/out.png"));
    assert!(matches!(r, Err(GrainError::Export(ExportError::WriteFailed(_)))));
}

#[test]
fn prepare_export_rejects_unresolved_path() {
    let data = vec![0u8; 16];
    let r = prepare_export(&data, 2, 2, None);
    assert_eq!(r, Err(GrainError::Export(ExportError::InvalidPath)));
}

#[test]
fn error_messages_describe_the_failure() {
    assert_eq!(
        GrainError::GpuInit("no adapter".to_string()).message(),
        "GPU initialization failed: no adapter"
    );
    assert_eq!(GrainError::Io("broken pipe".to_string()).message(), "IO error: broken pipe");
    assert_eq!(ExportError::InvalidPath.message(), "Invalid path");
    assert_eq!(
        ExportError::PathNotAllowed.message(),
        "Path not allowed (must be inside allowed directories)"
    );
    assert_eq!(ExportError::InvalidExtension.message(), "Invalid extension (allowed: png, tif, exr)");
    assert_eq!(
        GrainError::Export(ExportError::WriteFailed("disk full".to_string())).message(),
        "Export failed: Write failed: disk full"
    );
}

#[test]
fn name_with_unicode_letters_is_accepted() {
    assert!(validate_name("Néopan 400").is_ok());
    assert!(validate_name("é").is_ok());
    let wide: String = std::iter::repeat('ö').take(64).collect();
    assert!(validate_name(&wide).is_ok());
    let too_wide: String = std::iter::repeat('ö').take(65).collect();
    assert!(validate_name(&too_wide).is_err());
}
