use grainforge::document::decode_stock;
use grainforge::document::encode_stock;
use grainforge::film_stock::ClusteringType;
use grainforge::film_stock::CrystalType;
use grainforge::film_stock::FilmStock;
use grainforge::presets::coarse_grain_preset;
use grainforge::presets::fine_grain_preset;
use grainforge::presets::get_builtin_presets;
use grainforge::presets::medium_grain_preset;
use grainforge::validation::BoundedFloat;

#[test]
fn three_builtin_presets_in_order() {
    let presets = get_builtin_presets();
    assert_eq!(presets.len(), 3);
    assert_eq!(presets[0].meta.name, "Fine Grain");
    assert_eq!(presets[1].meta.name, "Medium Grain");
    assert_eq!(presets[2].meta.name, "Coarse Grain");
    assert_eq!(presets[0].grain.crystal_type, CrystalType::Tabular);
    assert_eq!(presets[1].texture.clustering, ClusteringType::Poisson);
    assert!(!presets[2].color.is_color);
}

#[test]
fn fine_grain_round_trips() {
    let stock = fine_grain_preset();
    let doc = encode_stock(&stock);
    assert_eq!(decode_stock(&doc), Ok(stock));
}

#[test]
fn medium_grain_round_trips() {
    let stock = medium_grain_preset();
    let doc = encode_stock(&stock);
    assert_eq!(decode_stock(&doc), Ok(stock));
}

#[test]
fn coarse_grain_round_trips() {
    let stock = coarse_grain_preset();
    let doc = encode_stock(&stock);
    assert_eq!(decode_stock(&doc), Ok(stock));
}

#[test]
fn custom_crystal_and_empty_options_round_trip() {
    let mut stock = medium_grain_preset();
    stock.meta.description = None;
    stock.meta.author = None;
    stock.meta.tags = Vec::new();
    stock.grain.crystal_type = CrystalType::Custom { sides: 7 };
    stock.color.correlation = BoundedFloat::new(-400, -1000, 1000);
    let doc = encode_stock(&stock);
    assert_eq!(decode_stock(&doc), Ok(stock));
}

#[test]
fn accepted_name_round_trips() {
    let mut stock = fine_grain_preset();
    stock.meta.name = "Kodak Tri-X".to_string();
    let doc = encode_stock(&stock);
    let back = decode_stock(&doc).expect("an 11-character name of letters, space and hyphen");
    assert_eq!(back.meta.name, "Kodak Tri-X");
}

#[test]
fn document_with_65_character_name_is_rejected() {
    let mut stock = fine_grain_preset();
    stock.meta.name = std::iter::repeat('a').take(65).collect();
    let doc = encode_stock(&stock);
    assert!(decode_stock(&doc).is_err());
}

#[test]
fn document_with_at_sign_in_name_is_rejected() {
    let mut stock = fine_grain_preset();
    stock.meta.name = "bad@name".to_string();
    let doc = encode_stock(&stock);
    assert!(decode_stock(&doc).is_err());
}

#[test]
fn document_with_unknown_top_level_field_is_rejected() {
    let stock = fine_grain_preset();
    let doc = encode_stock(&stock);

    // An unrecognized section heading the document.
    let unknown_first = format!("flavor.kind=salty\n{}", doc);
    assert!(decode_stock(&unknown_first).is_err());

    // An unrecognized trailing section.
    let unknown_last = format!("{}flavor.kind=salty\n", doc);
    assert!(decode_stock(&unknown_last).is_err());
}

#[test]
fn document_with_out_of_range_value_is_rejected() {
    let stock = fine_grain_preset();
    let doc = encode_stock(&stock);
    let tampered = doc.replace("grain.intensity=200", "grain.intensity=2500");
    assert!(decode_stock(&tampered).is_err());
    let negative = doc.replace("grain.intensity=200", "grain.intensity=-1");
    assert!(decode_stock(&negative).is_err());
}

#[test]
fn default_stock_sections_are_well_formed() {
    let stock = FilmStock::default();
    assert_eq!(stock.grain.intensity.get(), 500);
    assert_eq!(stock.grain.size.get(), 1000);
    assert_eq!(stock.texture.detail.get(), 4000);
    assert_eq!(stock.color.correlation.get(), 0);
    assert_eq!(stock.meta.name, "");
    assert_eq!(stock.meta.version, 1);
}

#[test]
fn encoded_document_is_key_value_lines_in_section_order() {
    let doc = encode_stock(&fine_grain_preset());
    assert!(doc.starts_with("meta.name=Fine Grain\n"));
    assert!(doc.contains("\nmeta.tags=fine,clean,low-iso\n"));
    assert!(doc.contains("\ngrain.intensity=200\n"));
    assert!(doc.contains("\ngrain.crystal_type=tabular\n"));
    assert!(doc.contains("\ncolor.correlation=300\n"));
    assert!(doc.ends_with("\ntexture.swirl=0\n"));
}

#[test]
fn unicode_name_round_trips() {
    let mut stock = fine_grain_preset();
    stock.meta.name = "Néopan 400".to_string();
    let doc = encode_stock(&stock);
    assert_eq!(decode_stock(&doc), Ok(stock));
}

#[test]
fn non_canonical_document_text_is_rejected() {
    let doc = encode_stock(&fine_grain_preset());
    // A value spelled with a leading zero parses to the same stock but is
    // not the canonical text, so the decoder rejects it.
    let padded = doc.replace("meta.version=1", "meta.version=01");
    assert!(decode_stock(&padded).is_err());
    // Same for extra trailing text.
    let trailing = format!("{}\n", doc);
    assert!(decode_stock(&trailing).is_err());
}

#[test]
fn accepted_document_reencodes_to_itself() {
    let doc = encode_stock(&medium_grain_preset());
    let back = decode_stock(&doc).expect("canonical text decodes");
    assert_eq!(encode_stock(&back), doc);
}
