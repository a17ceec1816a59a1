use zpl::label::{make_preamble, Label, LabelContent, PrintCalibration, PrintOptions, Unit};

#[test]
fn units_resolve_to_dots() {
    let label = Label::new(51, 51, 8);
    assert_eq!(label.unit_to_dots(&Unit::Dots(5)), 5);
    // One millimetre at eight dots per millimetre.
    assert_eq!(label.unit_to_dots(&Unit::Millimetres(1_000)), 8);
    // Resolution truncates: 1.5 mm at 8 dpmm is 12 dots.
    assert_eq!(label.unit_to_dots(&Unit::Millimetres(1_500)), 12);
    assert_eq!(label.unit_to_dots(&Unit::Millimetres(1_562)), 12);
    // Negative lengths clamp to zero.
    assert_eq!(label.unit_to_dots(&Unit::Millimetres(-1_000)), 0);
}

#[test]
fn units_resolve_to_signed_dots() {
    let label = Label::new(51, 51, 8);
    assert_eq!(label.signed_unit_to_dots(&Unit::Millimetres(1_000)), 8);
    assert_eq!(label.signed_unit_to_dots(&Unit::Millimetres(-1_500)), -12);
    assert_eq!(label.signed_unit_to_dots(&Unit::Dots(7)), 7);
    // Dots beyond the signed range clamp.
    assert_eq!(
        label.signed_unit_to_dots(&Unit::Dots(u32::MAX)),
        i32::MAX
    );
}

#[test]
fn preamble_is_fixed() {
    let preamble = make_preamble();
    assert_eq!(
        preamble.encode(),
        "~CD,\n~CT~\n~CC^\n^XA\n^CI28\n~TA+000\n^LT0\n^MTT\n^MNW\n~JSN\n^LH0,0\n~SD25\n^JMA\n^PR4,4\n^JUS\n^LRN\n^LT12\n~TA-020\n^XZ"
    );
    assert_eq!(preamble.expected_response_lines(), 0);
}

#[test]
fn qr_content_renders_in_place() {
    let mut label = Label::new(51, 51, 8);
    label.content.push(LabelContent::QrCode {
        content: "HELLO".to_string(),
        x: Unit::Dots(10),
        y: Unit::Dots(20),
        zoom: 4,
    });
    let rendered = label.render().unwrap();
    assert_eq!(rendered.encode(), "^FO10,20\n^BQN,2,4,Q,7\n^FDQA,HELLO");
}

#[test]
fn qr_origin_resolves_from_millimetres() {
    let mut label = Label::new(51, 51, 8);
    label.content.push(LabelContent::QrCode {
        content: "X".to_string(),
        x: Unit::Millimetres(5_000),
        y: Unit::Millimetres(2_500),
        zoom: 2,
    });
    let rendered = label.render().unwrap();
    assert_eq!(rendered.encode(), "^FO40,20\n^BQN,2,2,Q,7\n^FDQA,X");
}

#[test]
fn print_wraps_content_with_preamble_and_footer() {
    let label = Label::new(51, 51, 8);
    let options = PrintOptions {
        copies: 2,
        calibration: None,
    };
    let commands = label.print(&options).unwrap();
    assert_eq!(
        commands.encode(),
        "~CD,\n~CT~\n~CC^\n^XA\n^CI28\n~TA+000\n^LT0\n^MTT\n^MNW\n~JSN\n^LH0,0\n~SD25\n^JMA\n^PR4,4\n^JUS\n^LRN\n^LT12\n~TA-020\n^XZ\n^XA\n^MMC\n^PW408\n^LL0408\n^LS0\n^PQ2,2,2,Y\n^XZ"
    );
}

#[test]
fn print_applies_the_calibration_offset() {
    let label = Label::new(51, 51, 8);
    let options = PrintOptions {
        copies: 1,
        calibration: Some(PrintCalibration {
            home_x: Unit::Millimetres(1_000),
        }),
    };
    let commands = label.print(&options).unwrap();
    let text = commands.encode();
    // The offset stands between the header and the footer.
    assert!(text.contains("^LS0\n^LT8\n^PQ1,1,1,Y"));
}

#[test]
fn default_print_options() {
    let options = PrintOptions::default();
    assert_eq!(options.copies, 0);
    assert!(options.calibration.is_none());
}
