use zpl::status::{
    decode_host_status, decode_identification, decode_ram, decode_status1, decode_status2,
    decode_status3, print_progress, split_fields, status_query_commands,
};

#[test]
fn identification_line_decodes() {
    let line = b"ZT410,V84.20.11,8,4096KB".to_vec();
    let id = decode_identification(&line);
    assert_eq!(id.model, "ZT410");
    assert_eq!(id.version, "V84.20.11");
    assert_eq!(id.dpmm, 8);
    assert_eq!(id.memory, "4096KB");
}

#[test]
fn identification_tolerates_bad_fields() {
    // A numeric field that does not parse stays at its default; short lines
    // leave the rest at defaults.
    let id = decode_identification(&b"model,ver,notanumber".to_vec());
    assert_eq!(id.model, "model");
    assert_eq!(id.version, "ver");
    assert_eq!(id.dpmm, 0);
    assert_eq!(id.memory, "");

    // A plus sign is an accepted numeric prefix.
    let id = decode_identification(&b"m,v,+12,x".to_vec());
    assert_eq!(id.dpmm, 12);

    // A value beyond the field's width is skipped, not clamped.
    let id = decode_identification(&b"m,v,99999999999999999999,x".to_vec());
    assert_eq!(id.dpmm, 0);
}

#[test]
fn invalid_utf8_line_is_ignored() {
    // 0xFF can begin no UTF-8 sequence: the whole line is discarded.
    let id = decode_identification(&vec![0xFF, 44, 118, 44, 56]);
    assert_eq!(id.model, "");
    assert_eq!(id.version, "");
    assert_eq!(id.dpmm, 0);
}

#[test]
fn utf8_line_decodes_field_wise() {
    // A line that is valid UTF-8, though not ASCII, decodes like any other.
    let line = "caf\u{e9},v2,12,8MB".as_bytes().to_vec();
    let id = decode_identification(&line);
    assert_eq!(id.model, "caf\u{e9}");
    assert_eq!(id.version, "v2");
    assert_eq!(id.dpmm, 12);
    assert_eq!(id.memory, "8MB");
}

#[test]
fn status1_line_decodes() {
    let line = b"030,0,0,1234,000,1,0,0,X,1,0,1".to_vec();
    let s1 = decode_status1(&line);
    assert_eq!(s1.a_communication, 30);
    assert!(!s1.b_paper_out);
    assert!(!s1.c_pause);
    assert_eq!(s1.d_label_length, 1234);
    assert_eq!(s1.e_number_formats, 0);
    assert!(s1.f_buffer_full);
    assert!(!s1.g_communication_diagnostics);
    assert!(!s1.h_partial_format);
    assert!(s1.j_corrupt_ram);
    assert!(!s1.k_temperature_low);
    assert!(s1.l_temperature_high);
}

#[test]
fn status2_line_decodes() {
    let line = b"001,X,0,1,1,2,3,1,005,0,00000010".to_vec();
    let s2 = decode_status2(&line);
    assert_eq!(s2.m_settings, 1);
    assert!(!s2.o_head_up);
    assert!(s2.p_ribbon_out);
    assert!(s2.q_thermal_transfer_mode);
    assert_eq!(s2.r_print_mode, 2);
    assert_eq!(s2.s_print_width_mode, 3);
    assert!(s2.t_label_waiting);
    assert_eq!(s2.u_labels_remaining, 5);
    assert!(!s2.v_format_printing);
    assert_eq!(s2.w_number_graphics_stored, 10);
}

#[test]
fn status3_and_ram_lines_decode() {
    let s3 = decode_status3(&b"1234,1".to_vec());
    assert_eq!(s3.x_password, "1234");
    assert!(s3.y_static_ram);

    let ram = decode_ram(&b"1024,262144,131072".to_vec());
    assert_eq!(ram.total, 1024);
    assert_eq!(ram.maximum_to_user, 262144);
    assert_eq!(ram.available_to_user, 131072);
}

#[test]
fn flag_fields_need_zero_or_one() {
    // A parsable value other than 0 or 1 leaves the flag at its default.
    let s3 = decode_status3(&b"pw,2".to_vec());
    assert!(!s3.y_static_ram);
    let s3 = decode_status3(&b"pw,0".to_vec());
    assert!(!s3.y_static_ram);
    let s3 = decode_status3(&b"pw,garbage".to_vec());
    assert!(!s3.y_static_ram);
}

#[test]
fn full_status_decodes_from_five_lines() {
    let lines = vec![
        b"ZT410,V1,8,4MB".to_vec(),
        b"030,0,0,1234,000,0,0,0,X,0,0,0".to_vec(),
        b"001,X,0,0,0,2,3,0,000,0,0".to_vec(),
        b"pw,1".to_vec(),
        b"1024,262144,131072".to_vec(),
    ];
    let status = decode_host_status(&lines);
    assert_eq!(status.identification.dpmm, 8);
    assert_eq!(status.string1.d_label_length, 1234);
    assert_eq!(status.string2.r_print_mode, 2);
    assert!(status.string3.y_static_ram);
    assert_eq!(status.ram_status.total, 1024);
}

#[test]
fn discovery_commands_and_their_responses() {
    let commands = status_query_commands();
    assert_eq!(commands.encode(), "~HI\n~HS\n~HM");
    assert_eq!(commands.expected_response_lines(), 5);
}

#[test]
fn split_keeps_empty_fields() {
    let fields = split_fields(&b"a,,b,".to_vec());
    let fields: Vec<&[u8]> = fields.iter().map(|f| f.as_slice()).collect();
    assert_eq!(fields, vec![&b"a"[..], &b""[..], &b"b"[..], &b""[..]]);
}

#[test]
fn print_progress_reads_the_field_pair() {
    // Fields seven and eight of the second status line: the waiting flag and
    // the batch counter.
    let busy = print_progress(&b"001,X,0,0,0,2,3,1,005,0,0".to_vec());
    assert!(busy.label_waiting);
    assert_eq!(busy.labels_remaining, Some(5));
    assert!(!busy.complete());

    let done = print_progress(&b"001,X,0,0,0,2,3,0,000,0,0".to_vec());
    assert!(!done.label_waiting);
    assert_eq!(done.labels_remaining, Some(0));
    assert!(done.complete());

    // An unparsable counter never reads as finished.
    let unclear = print_progress(&b"001,X,0,0,0,2,3,0,?,0,0".to_vec());
    assert_eq!(unclear.labels_remaining, None);
    assert!(!unclear.complete());
}
