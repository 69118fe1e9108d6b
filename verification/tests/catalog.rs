use font_test_data::{AHEM, TINOS_SUBSET};
use gpui_text::catalog::{
    family_names, first_covering, new_font_context, register_bytes, register_font_blobs, resolve_face,
    validate_font_blobs, CatalogError, FaceFamily, FaceRequest, SystemFonts,
};
use gpui_text::font::FontStyle;
use skrifa::raw::types::Tag;
use skrifa::setting::VariationSetting;

fn weight(value: f32) -> VariationSetting {
    VariationSetting::new(Tag::new(b"wght"), value)
}

/// The position of a table in a font.
fn table(font: &[u8], tag: &[u8; 4]) -> usize {
    let count = usize::from(u16::from_be_bytes([font[4], font[5]]));
    for record in 0..count {
        let at = 12 + 16 * record;
        if &font[at..at + 4] == tag {
            return u32::from_be_bytes([font[at + 8], font[at + 9], font[at + 10], font[at + 11]])
                as usize;
        }
    }
    panic!("no such table")
}

/// The same family with the weight and the style of a semibold italic face.
fn semibold_italic(font: &[u8]) -> Vec<u8> {
    let mut font = font.to_vec();
    let os2 = table(&font, b"OS/2");
    font[os2 + 4..os2 + 6].copy_from_slice(&600u16.to_be_bytes());
    font[os2 + 62..os2 + 64].copy_from_slice(&1u16.to_be_bytes());
    font
}

#[test]
fn registered_fonts_are_enumerated_and_resolved() {
    let italic = semibold_italic(AHEM);
    let mut context = new_font_context(SystemFonts::Skip);
    register_bytes(&mut context, &[AHEM, &italic, TINOS_SUBSET]).unwrap();

    assert_eq!(family_names(&mut context), ["Ahem", "Tinos"]);

    let mut resolve = |request: &FaceRequest<'_>| resolve_face(&mut context, request);
    let latin = resolve(&FaceRequest {
        families: &[FaceFamily::Named("Ahem")],
        weight: weight(400.0),
        style: FontStyle::Normal,
        character: Some('m'),
    })
    .unwrap();
    assert_eq!(latin.blob.as_ref(), AHEM);
    assert_eq!(latin.index, 0);

    let semibold_italic = resolve(&FaceRequest {
        families: &[FaceFamily::Named("Ahem")],
        weight: weight(600.0),
        style: FontStyle::Italic,
        character: None,
    })
    .unwrap();
    assert_eq!(semibold_italic.blob.as_ref(), italic.as_slice());

    assert!(resolve(&FaceRequest {
        families: &[FaceFamily::Named("Ahem")],
        weight: weight(400.0),
        style: FontStyle::Normal,
        character: Some('\u{1F9A5}'),
    })
    .is_none());
}

#[test]
fn font_registration_is_atomic() {
    let mut context = new_font_context(SystemFonts::Skip);
    register_bytes(&mut context, &[TINOS_SUBSET]).unwrap();
    let families_before = family_names(&mut context);

    assert!(register_bytes(&mut context, &[AHEM, b"not a font"]).is_err());
    assert_eq!(family_names(&mut context), families_before);

    assert!(resolve_face(
        &mut context,
        &FaceRequest {
            families: &[FaceFamily::Named("Ahem")],
            weight: weight(400.0),
            style: FontStyle::Normal,
            character: None,
        },
    )
    .is_none());
}

#[test]
fn unsupported_fonts_are_named_as_such() {
    let mut context = new_font_context(SystemFonts::Skip);
    assert_eq!(
        register_bytes(&mut context, &[b"not a font"]),
        Err(CatalogError::UnsupportedFont)
    );
    assert_eq!(
        validate_font_blobs(&[AHEM.to_vec().into(), Vec::new().into()]),
        Err(CatalogError::UnsupportedFont)
    );
    assert_eq!(validate_font_blobs(&[]), Ok(()));
    assert_eq!(validate_font_blobs(&[AHEM.to_vec().into()]), Ok(()));
    assert!(family_names(&mut context).is_empty());
}

#[test]
fn families_are_asked_in_order_until_one_covers_the_character() {
    let mut context = new_font_context(SystemFonts::Skip);
    register_font_blobs(
        &mut context,
        &[AHEM.to_vec().into(), TINOS_SUBSET.to_vec().into()],
    );
    let uncovered = '\u{1F9A5}';
    for (families, character, expected) in [
        (["Ahem", "Tinos"], None, Some(AHEM)),
        (["Tinos", "Ahem"], None, Some(TINOS_SUBSET)),
        (["missing", "Ahem"], Some('m'), Some(AHEM)),
        (["Ahem", "Tinos"], Some(uncovered), None),
    ] {
        let selected = resolve_face(
            &mut context,
            &FaceRequest {
                families: &[FaceFamily::Named(families[0]), FaceFamily::Named(families[1])],
                weight: weight(400.0),
                style: FontStyle::Normal,
                character,
            },
        );
        assert_eq!(
            selected.as_ref().map(|font| font.blob.as_ref()),
            expected,
            "{families:?}"
        );
    }
    assert!(resolve_face(
        &mut context,
        &FaceRequest {
            families: &[FaceFamily::SystemUi],
            weight: weight(400.0),
            style: FontStyle::Oblique,
            character: None,
        },
    )
    .is_none());
}

#[test]
fn system_fonts_are_loaded_by_default() {
    assert_eq!(SystemFonts::default(), SystemFonts::Load);
    let mut context = new_font_context(SystemFonts::Load);
    register_bytes(&mut context, &[AHEM]).unwrap();
    let names = family_names(&mut context);
    assert!(names.contains(&"Ahem".to_owned()));
    assert!(names.windows(2).all(|pair| pair[0] < pair[1]));
    // Refused fonts leave the listing as it is.
    assert!(register_bytes(&mut context, &[TINOS_SUBSET, b"not a font"]).is_err());
    assert_eq!(family_names(&mut context), names);
}

#[test]
fn the_first_of_equal_fonts_is_taken() {
    let request = FaceRequest {
        families: &[FaceFamily::Named("Ahem")],
        weight: weight(400.0),
        style: FontStyle::Normal,
        character: None,
    };
    let mut found = || {
        let mut context = new_font_context(SystemFonts::Skip);
        register_bytes(&mut context, &[AHEM]).unwrap();
        resolve_face(&mut context, &request).unwrap()
    };
    let (first, second) = (found(), found());
    assert_eq!(first.blob.as_ref(), second.blob.as_ref());
    assert_ne!(first.blob.id(), second.blob.id());
    for character in [None, Some('m')] {
        let selected = first_covering(vec![second.clone(), first.clone()], character).unwrap();
        assert_eq!(selected.blob.id(), second.blob.id());
    }
    assert!(first_covering(vec![first, second], Some('\u{1F9A5}')).is_none());
}

#[test]
fn a_context_is_taken_apart_with_its_fonts() {
    let mut context = new_font_context(SystemFonts::Skip);
    register_bytes(&mut context, &[TINOS_SUBSET, AHEM]).unwrap();
    let (mut collection, _) = context.into_parts();
    assert!(collection.family_by_name("Ahem").is_some());
    assert!(collection.family_by_name("Tinos").is_some());
}
