use zpl::command::{
    total_expected_response_lines, BackfeedSequence, CommandSequence, MediaTracking, MediaType,
    PostPrintAction, ZplCommand,
};
use zpl::image::{Compression, SerializedImage};

#[test]
fn test_raw() {
    let c = ZplCommand::Raw {
        command: "Abc".to_string(),
        response_lines: 0,
    };

    assert_eq!(c.encode(), "Abc");
}

#[test]
fn test_setup() {
    let c = CommandSequence(vec![
        ZplCommand::SetPrintWidth(684),
        ZplCommand::SetLabelLength(384),
    ]);
    assert_eq!(c.encode(), "^PW684\n^LL0384");
}

#[test]
fn encode_fixed_commands() {
    assert_eq!(ZplCommand::StartLabel.encode(), "^XA");
    assert_eq!(ZplCommand::EndLabel.encode(), "^XZ");
    assert_eq!(ZplCommand::PersistConfiguration.encode(), "^JUS");
    assert_eq!(ZplCommand::RequestHostIdentification.encode(), "~HI");
    assert_eq!(ZplCommand::RequestHostStatus.encode(), "~HS");
    assert_eq!(ZplCommand::RequestHostRamStatus.encode(), "~HM");
}

#[test]
fn encode_numeric_fields() {
    assert_eq!(ZplCommand::SetPrintWidth(12).encode(), "^PW012");
    assert_eq!(ZplCommand::SetPrintWidth(12345).encode(), "^PW12345");
    assert_eq!(ZplCommand::SetLabelLength(5).encode(), "^LL0005");
    assert_eq!(ZplCommand::MoveOrigin(10, 20).encode(), "^FO10,20");
    assert_eq!(ZplCommand::FieldOrigin(1, 2).encode(), "^FO1,2");
    assert_eq!(ZplCommand::SetDarkness(25).encode(), "~SD25");
    assert_eq!(ZplCommand::SetEncoding(28).encode(), "^CI28");
    assert_eq!(ZplCommand::SetHome(0, 0).encode(), "^LH0,0");
    assert_eq!(ZplCommand::SetSpeed { print: 4, slew: 4 }.encode(), "^PR4,4");
    assert_eq!(ZplCommand::SetHorizontalShift(0).encode(), "^LS0");
    assert_eq!(ZplCommand::SetVerticalShift(12).encode(), "^LT12");
    assert_eq!(ZplCommand::SetVerticalShift(-7).encode(), "^LT-7");
}

#[test]
fn encode_signed_padded_fields() {
    assert_eq!(ZplCommand::SetTearOffPosition(0).encode(), "~TA+000");
    assert_eq!(ZplCommand::SetTearOffPosition(-20).encode(), "~TA-020");
    assert_eq!(ZplCommand::SetTearOffPosition(1234).encode(), "~TA+1234");
}

#[test]
fn encode_enum_fields() {
    assert_eq!(ZplCommand::SetDelimiter(',').encode(), "~CD,");
    assert_eq!(ZplCommand::SetControlCommandPrefix('~').encode(), "~CT~");
    assert_eq!(ZplCommand::SetFormatCommandPrefix('^').encode(), "~CC^");
    assert_eq!(
        ZplCommand::SetBackfeedSequence(BackfeedSequence::Default).encode(),
        "~JSN"
    );
    assert_eq!(
        ZplCommand::SetBackfeedSequence(BackfeedSequence::Percent(50)).encode(),
        "~JS50"
    );
    assert_eq!(
        ZplCommand::SetMediaTracking(MediaTracking::NonContinuousWebSensing).encode(),
        "^MNW"
    );
    assert_eq!(
        ZplCommand::SetMediaTracking(MediaTracking::NonContinuousMarked(-3)).encode(),
        "^MNM,-3"
    );
    assert_eq!(ZplCommand::SetMediaType(MediaType::Transfer).encode(), "^MTT");
    assert_eq!(
        ZplCommand::SetPostPrintAction(PostPrintAction::Cut).encode(),
        "^MMC"
    );
    assert_eq!(ZplCommand::SetInverted(false).encode(), "^LRN");
    assert_eq!(ZplCommand::SetHalfDensity(false).encode(), "^JMA");
    assert_eq!(ZplCommand::SetMirrored(true).encode(), "^PMY");
    assert_eq!(ZplCommand::SetFlipped(true).encode(), "^POI");
}

#[test]
fn encode_fields_and_qr() {
    assert_eq!(
        ZplCommand::FieldData("hello".to_string()).encode(),
        "^FDhello"
    );
    assert_eq!(
        ZplCommand::FieldModeQRCode { zoom: 4 }.encode(),
        "^BQN,2,4,Q,7"
    );
    assert_eq!(
        ZplCommand::PrintQuantity {
            total: 3,
            pause_and_cut_after: 3,
            replicates_per_serial: 3,
            cut_only: true,
        }
        .encode(),
        "^PQ3,3,3,Y"
    );
}

#[test]
fn encode_embedded_graphics() {
    let plain = ZplCommand::RenderImage(SerializedImage::AsciiHex {
        byte_count: 2,
        total_field_count: 1,
        bytes_per_row: 1,
        data: "80".to_string(),
    });
    assert_eq!(plain.encode(), "^GFA,2,1,1,80^FS");

    let compressed = ZplCommand::RenderImage(SerializedImage::Compressed {
        byte_count: 14,
        total_field_count: 1,
        bytes_per_row: 1,
        data: "eJwb".to_string(),
        id: Compression::Z64,
        crc: 0xabcd,
    });
    assert_eq!(compressed.encode(), "^GFA,14,1,1,:Z64:eJwb:abcd^FS");

    let uncompressed = ZplCommand::RenderImage(SerializedImage::Compressed {
        byte_count: 14,
        total_field_count: 1,
        bytes_per_row: 1,
        data: "/w==".to_string(),
        id: Compression::B64,
        crc: 0x0001,
    });
    assert_eq!(uncompressed.encode(), "^GFA,14,1,1,:B64:/w==:0001^FS");
}

#[test]
fn encode_is_deterministic() {
    let seq = || {
        CommandSequence(vec![
            ZplCommand::StartLabel,
            ZplCommand::SetPrintWidth(684),
            ZplCommand::FieldData("payload".to_string()),
            ZplCommand::EndLabel,
        ])
    };
    let first = seq().encode();
    let second = seq().encode();
    assert_eq!(first.as_bytes(), second.as_bytes());
}

#[test]
fn response_lines_per_command() {
    assert_eq!(
        ZplCommand::RequestHostIdentification.expected_response_lines(),
        1
    );
    assert_eq!(ZplCommand::RequestHostStatus.expected_response_lines(), 3);
    assert_eq!(ZplCommand::RequestHostRamStatus.expected_response_lines(), 1);
    assert_eq!(ZplCommand::StartLabel.expected_response_lines(), 0);
    let raw = ZplCommand::Raw {
        command: "X".to_string(),
        response_lines: 7,
    };
    assert_eq!(raw.expected_response_lines(), 7);
}

#[test]
fn response_lines_of_discovery_sum_to_five() {
    let commands = [
        ZplCommand::RequestHostIdentification,
        ZplCommand::RequestHostStatus,
        ZplCommand::RequestHostRamStatus,
    ];
    assert_eq!(total_expected_response_lines(&commands), 5);
}

#[test]
fn sequence_append_and_push() {
    let mut seq = CommandSequence(vec![ZplCommand::StartLabel]);
    seq.push(ZplCommand::SetPrintWidth(20));
    seq.append(CommandSequence(vec![ZplCommand::EndLabel]));
    assert_eq!(seq.encode(), "^XA\n^PW020\n^XZ");
    assert_eq!(seq.expected_response_lines(), 0);
}
