use favi::bindings::{extra_derives, tidy_cicp_enums, DeriveSet, TidyError};

const NEWTYPE_1: &str =
    "#[derive(Debug, Clone, Hash, PartialEq, Eq)]\npub struct _bindgen_ty_1(pub ::core::ffi::c_uint);\n";
const NEWTYPE_2: &str =
    "#[derive(Debug, Clone, Hash, PartialEq, Eq)]\npub struct _bindgen_ty_2(pub ::core::ffi::c_uint);\n";
const NEWTYPE_3: &str =
    "#[derive(Debug, Clone, Hash, PartialEq, Eq)]\npub struct _bindgen_ty_3(pub ::core::ffi::c_uint);\n";

fn sample() -> String {
    let mut s = String::new();
    s.push_str("pub const AVIF_COLOR_PRIMARIES_BT709: _bindgen_ty_1 = _bindgen_ty_1(1);\n");
    s.push_str("pub const AVIF_COLOR_PRIMARIES_UNSPECIFIED: _bindgen_ty_1 = _bindgen_ty_1(2);\n");
    s.push_str(NEWTYPE_1);
    s.push_str("pub type avifColorPrimaries = u16;\n");
    s.push_str("pub const AVIF_TRANSFER_CHARACTERISTICS_BT709: _bindgen_ty_2 = _bindgen_ty_2(1);\n");
    s.push_str(NEWTYPE_2);
    s.push_str("pub type avifTransferCharacteristics = u16;\n");
    s.push_str("pub const AVIF_MATRIX_COEFFICIENTS_IDENTITY: _bindgen_ty_3 = _bindgen_ty_3(0);\n");
    s.push_str(NEWTYPE_3);
    s.push_str("pub type avifMatrixCoefficients = u16;\n");
    s.push_str("pub const AVIF_VERSION_MAJOR: u32 = 1;\n");
    s
}

fn expected() -> String {
    let mut s = String::new();
    s.push_str("pub const AVIF_COLOR_PRIMARIES_BT709: avifColorPrimaries = avifColorPrimaries(1);\n");
    s.push_str(
        "pub const AVIF_COLOR_PRIMARIES_UNSPECIFIED: avifColorPrimaries = avifColorPrimaries(2);\n",
    );
    s.push_str("#[derive(Debug, Clone, Hash, PartialEq, Eq, Copy, PartialOrd, Ord)]\npub struct avifColorPrimaries(pub u16);\n");
    s.push_str("pub const AVIF_TRANSFER_CHARACTERISTICS_BT709: avifTransferCharacteristics = avifTransferCharacteristics(1);\n");
    s.push_str("#[derive(Debug, Clone, Hash, PartialEq, Eq, Copy, PartialOrd, Ord)]\npub struct avifTransferCharacteristics(pub u16);\n");
    s.push_str("pub const AVIF_MATRIX_COEFFICIENTS_IDENTITY: avifMatrixCoefficients = avifMatrixCoefficients(0);\n");
    s.push_str("#[derive(Debug, Clone, Hash, PartialEq, Eq, Copy, PartialOrd, Ord)]\npub struct avifMatrixCoefficients(pub u16);\n");
    s.push_str("pub const AVIF_VERSION_MAJOR: u32 = 1;\n");
    s
}

#[test]
fn tidy_renames_newtypes_and_drops_aliases() {
    let out = tidy_cicp_enums(&sample()).expect("bindings tidy");
    assert_eq!(out, expected());
    assert!(!out.contains("_bindgen_ty_"));
}

#[test]
fn tidy_leaves_other_lines_alone() {
    let mut input = sample();
    input.push_str("pub const AVIF_RESULT_OK: avifResult = avifResult(0);\r\n");
    let mut want = expected();
    want.push_str("pub const AVIF_RESULT_OK: avifResult = avifResult(0);\r\n");
    assert_eq!(tidy_cicp_enums(&input), Ok(want));
}

#[test]
fn tidy_reports_missing_newtype() {
    let input = sample().replace(NEWTYPE_2, "");
    assert_eq!(
        tidy_cicp_enums(&input),
        Err(TidyError::MissingNewtype("2".to_string()))
    );
}

#[test]
fn tidy_reports_missing_alias() {
    let input = sample().replace("pub type avifMatrixCoefficients = u16;\n", "");
    assert_eq!(
        tidy_cicp_enums(&input),
        Err(TidyError::MissingAlias("avifMatrixCoefficients".to_string()))
    );
}

#[test]
fn tidy_reports_leftover_anonymous_types() {
    let mut input = sample();
    input.push_str("pub type avifOther = _bindgen_ty_9;\n");
    assert_eq!(tidy_cicp_enums(&input), Err(TidyError::LeftoverAnonymous));
}

#[test]
fn tidy_reads_each_number_once() {
    // The second constant of newtype 1 names another prefix's typedef: the
    // first constant decides.
    let mut input = String::from(
        "pub const AVIF_MATRIX_COEFFICIENTS_ODD: _bindgen_ty_1 = _bindgen_ty_1(7);\n",
    );
    input.push_str(&sample());
    let out = tidy_cicp_enums(&input).expect("bindings tidy");
    assert!(out.contains(
        "pub const AVIF_COLOR_PRIMARIES_BT709: avifMatrixCoefficients = avifMatrixCoefficients(1);"
    ));
    assert!(!out.contains("pub struct avifColorPrimaries"));
    assert!(!out.contains("_bindgen_ty_"));
}

#[test]
fn tidy_of_empty_text_misses_the_first_alias() {
    assert_eq!(
        tidy_cicp_enums(""),
        Err(TidyError::MissingAlias("avifColorPrimaries".to_string()))
    );
}

#[test]
fn tidy_error_messages() {
    assert_eq!(
        TidyError::MissingNewtype("4".to_string()).message(),
        "anonymous enum _bindgen_ty_4 not found in the generated bindings"
    );
    assert_eq!(
        TidyError::MissingAlias("avifColorPrimaries".to_string()).message(),
        "no typedef alias found for avifColorPrimaries in the generated bindings"
    );
    assert_eq!(
        TidyError::LeftoverAnonymous.message(),
        "generated bindings still contain _bindgen_ty_ identifiers; tidy_cicp_enums needs updating for the new libavif header"
    );
}

#[test]
fn reviewed_types_get_their_derives() {
    assert_eq!(extra_derives("avifResult"), vec!["Copy", "PartialOrd", "Ord"]);
    assert_eq!(extra_derives("avifAddImageFlag"), vec!["Copy", "PartialOrd", "Ord"]);
    assert_eq!(
        extra_derives("avifCropRect"),
        vec!["Copy", "Clone", "Hash", "PartialOrd", "Ord", "PartialEq", "Eq"]
    );
    assert_eq!(
        extra_derives("avifImageTiming"),
        vec!["Copy", "Clone", "PartialOrd", "PartialEq"]
    );
    assert!(extra_derives("avifImage").is_empty());
    assert!(extra_derives("").is_empty());
    assert_eq!(DeriveSet::NewtypeEnum.names(), vec!["Copy", "PartialOrd", "Ord"]);
}
