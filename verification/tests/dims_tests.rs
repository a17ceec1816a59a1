use zpl::dims::LabelDimensions;
use zpl::job::{check_dimensions, PrintApi, PrintApiKind};

fn dims(width: u32, height: u32) -> LabelDimensions {
    LabelDimensions {
        width,
        height,
        margin_left: 1_000,
        margin_right: 1_000,
        margin_top: 1_000,
        margin_bottom: 1_000,
    }
}

#[test]
fn validate_dimensions() {
    // 51 mm and 50 mm, in thousandths of a millimetre.
    let lhs = dims(51_000, 51_000);

    assert!(lhs.approx_cmp(&lhs), "Does not equal itself?");

    assert!(
        !dims(50_000, 51_000).approx_cmp(&lhs),
        "Does equal another"
    );

    assert!(
        !dims(51_000, 50_000).approx_cmp(&lhs),
        "Does equal another"
    );
}

#[test]
fn approx_cmp_tolerates_tiny_differences() {
    // 51 mm against a value off by less than 2^-16 of it.
    let lhs = dims(6_553_600, 6_553_600);
    let close = dims(6_553_700, 6_553_600);
    assert!(lhs.approx_cmp(&close));
    let apart = dims(6_553_900, 6_553_600);
    assert!(!lhs.approx_cmp(&apart));
}

#[test]
fn content_box_clamps_at_zero() {
    let d = LabelDimensions {
        width: 51_000,
        height: 4_000,
        margin_left: 5_000,
        margin_right: 5_000,
        margin_top: 2_500,
        margin_bottom: 2_500,
    };
    assert_eq!(d.content_width(), 41_000);
    assert_eq!(d.content_height(), 0);
}

#[test]
fn job_dimension_requirement_is_checked() {
    let configured = dims(51_000, 51_000);

    let none = PrintApi {
        dimensions: None,
        kind: PrintApiKind::Svg {
            code: "<svg/>".to_string(),
        },
    };
    assert!(check_dimensions(&none, &configured).is_ok());

    let matching = PrintApi {
        dimensions: Some(dims(51_000, 51_000)),
        kind: PrintApiKind::Svg {
            code: "<svg/>".to_string(),
        },
    };
    assert!(check_dimensions(&matching, &configured).is_ok());

    let mismatched = PrintApi {
        dimensions: Some(dims(50_000, 51_000)),
        kind: PrintApiKind::Svg {
            code: "<svg/>".to_string(),
        },
    };
    let err = check_dimensions(&mismatched, &configured).unwrap_err();
    assert_eq!(
        err.message(),
        "Dimension mismatch, check physical label configuration"
    );
}
