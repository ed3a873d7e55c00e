use mizpos_desktop::command;
use mizpos_desktop::command::QrErrorLevel;
use mizpos_desktop::style::Align;

#[test]
fn fixed_commands_have_their_bytes() {
    assert_eq!(command::init(), vec![0x1b, 0x40]);
    assert_eq!(command::select_jis_table(), vec![0x1b, 0x74, 0x02]);
    assert_eq!(command::select_shift_jis(), vec![0x1c, 0x43, 0x01]);
    assert_eq!(command::line_feed(), vec![0x0a]);
    assert_eq!(command::full_cut(), vec![0x1d, 0x56, 0x00]);
    assert_eq!(command::partial_cut(), vec![0x1d, 0x56, 0x01]);
    assert_eq!(command::qr_model_2(), vec![0x1d, 0x28, 0x6b, 0x04, 0x00, 0x31, 0xa5, 0x32, 0x00]);
    assert_eq!(command::qr_print(), vec![0x1d, 0x28, 0x6b, 0x03, 0x00, 0x31, 0xb5, 0x30]);
    assert_eq!(command::barcode_hri_below(), vec![0x1d, 0x48, 0x02]);
}

#[test]
fn toggles_have_their_bytes() {
    assert_eq!(command::bold(true), vec![0x1b, 0x45, 0x01]);
    assert_eq!(command::bold(false), vec![0x1b, 0x45, 0x00]);
    assert_eq!(command::underline(true), vec![0x1b, 0x2d, 0x01]);
    assert_eq!(command::underline(false), vec![0x1b, 0x2d, 0x00]);
    assert_eq!(command::kanji_underline(true), vec![0x1c, 0x2d, 0x01]);
    assert_eq!(command::kanji_underline(false), vec![0x1c, 0x2d, 0x00]);
    assert_eq!(command::reverse(true), vec![0x1d, 0x42, 0x01]);
    assert_eq!(command::reverse(false), vec![0x1d, 0x42, 0x00]);
    assert_eq!(command::double_size(true), vec![0x1b, 0x21, 0x30]);
    assert_eq!(command::double_size(false), vec![0x1b, 0x21, 0x00]);
    assert_eq!(command::kanji_mode(true), vec![0x1c, 0x26]);
    assert_eq!(command::kanji_mode(false), vec![0x1c, 0x2e]);
}

#[test]
fn alignment_has_its_bytes() {
    assert_eq!(command::align(Align::Left), vec![0x1b, 0x61, 0x00]);
    assert_eq!(command::align(Align::Center), vec![0x1b, 0x61, 0x01]);
    assert_eq!(command::align(Align::Right), vec![0x1b, 0x61, 0x02]);
}

#[test]
fn kanji_size_carries_its_flags() {
    assert_eq!(command::kanji_size(0x04), vec![0x1c, 0x21, 0x04]);
    assert_eq!(command::kanji_size(0x08), vec![0x1c, 0x21, 0x08]);
    assert_eq!(command::kanji_size(0x00), vec![0x1c, 0x21, 0x00]);
}

#[test]
fn dot_values_are_split_little_endian() {
    assert_eq!(command::print_area_width(384), vec![0x1d, 0x57, 0x80, 0x01]);
    assert_eq!(command::print_area_width(576), vec![0x1d, 0x57, 0x40, 0x02]);
    assert_eq!(command::print_area_width(0), vec![0x1d, 0x57, 0x00, 0x00]);
    assert_eq!(command::print_area_width(0xffff), vec![0x1d, 0x57, 0xff, 0xff]);
    assert_eq!(command::left_margin(0x1234), vec![0x1d, 0x4c, 0x34, 0x12]);
    assert_eq!(command::left_margin(255), vec![0x1d, 0x4c, 0xff, 0x00]);
    assert_eq!(command::left_margin(256), vec![0x1d, 0x4c, 0x00, 0x01]);
}

#[test]
fn qr_parameters_have_their_bytes() {
    assert_eq!(command::qr_cell_size(6), vec![0x1d, 0x28, 0x6b, 0x03, 0x00, 0x31, 0xa7, 0x06]);
    assert_eq!(
        command::qr_error_level(QrErrorLevel::L),
        vec![0x1d, 0x28, 0x6b, 0x03, 0x00, 0x31, 0xa9, 0x30]
    );
    assert_eq!(
        command::qr_error_level(QrErrorLevel::M),
        vec![0x1d, 0x28, 0x6b, 0x03, 0x00, 0x31, 0xa9, 0x31]
    );
}

#[test]
fn qr_store_declares_payload_length_plus_three() {
    for n in [0usize, 1, 5, 252, 253, 254, 300, 1000, 65532] {
        let payload = vec![b'A'; n];
        let bytes = command::qr_store(&payload);
        assert_eq!(bytes.len(), n + 8);
        assert_eq!(&bytes[0..3], &[0x1d, 0x28, 0x6b]);
        let declared = bytes[3] as usize + 256 * bytes[4] as usize;
        assert_eq!(declared, n + 3);
        assert_eq!(declared, bytes.len() - 5);
        assert_eq!(&bytes[5..8], &[0x31, 0xb4, 0x30]);
        assert_eq!(&bytes[8..], &payload[..]);
    }
}

#[test]
fn qr_store_of_a_short_payload_is_exact() {
    assert_eq!(
        command::qr_store(b"R-001"),
        vec![0x1d, 0x28, 0x6b, 0x08, 0x00, 0x31, 0xb4, 0x30, b'R', b'-', b'0', b'0', b'1']
    );
    let payload = vec![0x55u8; 300];
    let bytes = command::qr_store(&payload);
    assert_eq!(&bytes[3..5], &[0x2f, 0x01]);
}

#[test]
fn qr_store_length_wraps_at_sixteen_bits() {
    let payload = vec![0u8; 65533];
    let bytes = command::qr_store(&payload);
    assert_eq!(&bytes[3..5], &[0x00, 0x00]);
    let payload = vec![0u8; 65536 + 7];
    let bytes = command::qr_store(&payload);
    assert_eq!(&bytes[3..5], &[0x0a, 0x00]);
}

#[test]
fn barcode_parameters_have_their_bytes() {
    assert_eq!(command::barcode_height(50), vec![0x1d, 0x68, 50]);
    assert_eq!(command::barcode_module_width(3), vec![0x1d, 0x77, 3]);
}

#[test]
fn barcode_declares_its_payload_length() {
    assert_eq!(
        command::barcode_code128(b"4901234567894"),
        vec![
            0x1d, 0x6b, 0x49, 13, b'4', b'9', b'0', b'1', b'2', b'3', b'4', b'5', b'6', b'7',
            b'8', b'9', b'4'
        ]
    );
    assert_eq!(command::barcode_code128(b""), vec![0x1d, 0x6b, 0x49, 0]);
    let payload = vec![b'7'; 255];
    let bytes = command::barcode_code128(&payload);
    assert_eq!(bytes[3], 255);
    assert_eq!(bytes.len(), 259);
}

#[test]
fn barcode_length_wraps_at_eight_bits() {
    let payload = vec![b'1'; 256];
    assert_eq!(command::barcode_code128(&payload)[3], 0);
    let payload = vec![b'1'; 300];
    assert_eq!(command::barcode_code128(&payload)[3], 44);
}
