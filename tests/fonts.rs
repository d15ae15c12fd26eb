use dwrote::glyph_run::{colorref, plan_glyph_run, GlyphRunError, GlyphRunPlan};
use dwrote::types::{FontDescriptor, FontStretch, FontStyle, FontWeight};

#[test]
fn weight_codes_map_both_ways() {
    assert_eq!(FontWeight::from_code(400), FontWeight::Regular);
    assert_eq!(FontWeight::from_code(350), FontWeight::SemiLight);
    assert_eq!(FontWeight::from_code(950), FontWeight::ExtraBlack);
    assert_eq!(FontWeight::from_code(450), FontWeight::Unknown(450));
    assert_eq!(FontWeight::Bold.code(), 700);
    assert_eq!(FontWeight::Unknown(1).code(), 1);
    for v in [0u32, 100, 200, 300, 350, 400, 500, 600, 700, 800, 900, 950, 999, u32::MAX] {
        assert_eq!(FontWeight::from_code(v).code(), v);
    }
}

#[test]
fn stretch_codes_map_both_ways() {
    assert_eq!(FontStretch::from_code(0), FontStretch::Undefined);
    assert_eq!(FontStretch::from_code(5), FontStretch::Normal);
    assert_eq!(FontStretch::from_code(9), FontStretch::UltraExpanded);
    assert_eq!(FontStretch::from_code(10), FontStretch::Unknown(10));
    assert_eq!(FontStretch::Condensed.code(), 3);
    for v in 0u32..12 {
        assert_eq!(FontStretch::from_code(v).code(), v);
    }
}

#[test]
fn style_codes_map_both_ways() {
    assert_eq!(FontStyle::from_code(0), FontStyle::Normal);
    assert_eq!(FontStyle::from_code(1), FontStyle::Oblique);
    assert_eq!(FontStyle::from_code(2), FontStyle::Italic);
    assert_eq!(FontStyle::from_code(3), FontStyle::Unknown(3));
    assert_eq!(FontStyle::Italic.code(), 2);
}

#[test]
fn descriptor_round_trip_through_codes() {
    let d = FontDescriptor::from_codes("Arial".to_string(), 400, 5, 0);
    assert!(d.family_name == "Arial");
    assert_eq!(d.weight, FontWeight::Regular);
    assert_eq!(d.stretch, FontStretch::Normal);
    assert_eq!(d.style, FontStyle::Normal);
    let (w, s, st) = d.codes();
    assert_eq!((w, s, st), (400, 5, 0));
    let d2 = FontDescriptor::from_codes(d.family_name.clone(), w, s, st);
    assert_eq!(d, d2);
}

#[test]
fn descriptors_differ_by_any_field() {
    let d = FontDescriptor::from_codes("Arial".to_string(), 400, 5, 0);
    assert!(d != FontDescriptor::from_codes("Arial".to_string(), 700, 5, 0));
    assert!(d != FontDescriptor::from_codes("Arial".to_string(), 400, 3, 0));
    assert!(d != FontDescriptor::from_codes("Arial".to_string(), 400, 5, 2));
    assert!(d != FontDescriptor::from_codes("Verdana".to_string(), 400, 5, 0));
}

#[test]
fn colorref_packs_red_green_blue() {
    assert_eq!(colorref(255, 255, 255), 0x00FF_FFFF);
    assert_eq!(colorref(1, 2, 3), 0x0003_0201);
    assert_eq!(colorref(0xAB, 0, 0), 0xAB);
    assert_eq!(colorref(0, 0, 0), 0);
}

#[test]
fn glyph_run_rejects_unequal_lists() {
    assert_eq!(plan_glyph_run(&[36, 37], 1, 2, 0, 0, 0), Err(GlyphRunError::LengthMismatch));
    assert_eq!(plan_glyph_run(&[36, 37], 2, 3, 0, 0, 0), Err(GlyphRunError::LengthMismatch));
    assert_eq!(plan_glyph_run(&[], 0, 1, 0, 0, 0), Err(GlyphRunError::LengthMismatch));
}

#[test]
fn glyph_run_plan_for_equal_lists() {
    assert_eq!(
        plan_glyph_run(&[36], 1, 1, 255, 255, 255),
        Ok(GlyphRunPlan { glyph_count: 1, color: 0x00FF_FFFF })
    );
    assert_eq!(
        plan_glyph_run(&[], 0, 0, 16, 32, 64),
        Ok(GlyphRunPlan { glyph_count: 0, color: 0x0040_2010 })
    );
}
