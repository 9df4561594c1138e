use win_api_trace::pe::{find_export_rva, read_c_string, read_u16, read_u32, PeError};

fn put_u16(data: &mut Vec<u8>, off: usize, v: u16) {
    let b = v.to_le_bytes();
    data[off] = b[0];
    data[off + 1] = b[1];
}

fn put_u32(data: &mut Vec<u8>, off: usize, v: u32) {
    let b = v.to_le_bytes();
    for k in 0..4 {
        data[off + k] = b[k];
    }
}

/// A minimal 32-bit image with one section and one named export.
/// Section: RVA 0x1000..0x1100 maps to file 0x200..0x300.
fn synthetic_image(export_name: &str, export_rva: u32) -> Vec<u8> {
    let mut d = vec![0u8; 0x300];
    let nt_off = 0x40usize;
    put_u16(&mut d, 0, 0x5A4D); // MZ
    put_u32(&mut d, 0x3C, nt_off as u32);
    put_u32(&mut d, nt_off, 0x0000_4550); // PE\0\0
    let coff = nt_off + 4;
    put_u16(&mut d, coff + 2, 1); // one section
    let size_opt = 0xE0u16; // standard 32-bit optional header size
    put_u16(&mut d, coff + 16, size_opt);
    let opt = coff + 20;
    put_u16(&mut d, opt, 0x10B); // 32-bit layout
    put_u32(&mut d, opt + 96, 0x1000); // export directory RVA

    // section table: one row of 40 bytes
    let sec = opt + size_opt as usize;
    put_u32(&mut d, sec + 8, 0x100); // virtual size
    put_u32(&mut d, sec + 12, 0x1000); // virtual address
    put_u32(&mut d, sec + 16, 0x100); // raw size
    put_u32(&mut d, sec + 20, 0x200); // pointer to raw data

    // export directory at file 0x200 (RVA 0x1000)
    put_u32(&mut d, 0x200 + 24, 1); // one name
    put_u32(&mut d, 0x200 + 28, 0x1070); // function table RVA
    put_u32(&mut d, 0x200 + 32, 0x1040); // name pointer table RVA
    put_u32(&mut d, 0x200 + 36, 0x1060); // ordinal table RVA

    put_u32(&mut d, 0x240, 0x1050); // name 0 RVA
    let name_off = 0x250;
    let bytes = export_name.as_bytes();
    for (k, b) in bytes.iter().enumerate() {
        d[name_off + k] = *b;
    }
    d[name_off + bytes.len()] = 0;
    put_u16(&mut d, 0x260, 0); // ordinal 0
    put_u32(&mut d, 0x270, export_rva); // function 0 RVA
    // end the image right after the function-table entry, so that a
    // truncation anywhere removes a byte some lookup step needs
    d.truncate(0x274);
    d
}

#[test]
fn resolves_the_named_export_to_its_table_entry() {
    let image = synthetic_image("LoadLibraryW", 0x0DEA_DBEE);
    assert_eq!(find_export_rva(&image, b"LoadLibraryW"), Ok(0x0DEA_DBEE));
}

#[test]
fn a_missing_name_is_not_found() {
    let image = synthetic_image("LoadLibraryW", 0x1234);
    assert_eq!(find_export_rva(&image, b"GetProcAddress"), Err(PeError::ExportNotFound));
}

#[test]
fn truncation_at_every_offset_is_an_error_never_a_crash() {
    let image = synthetic_image("LoadLibraryW", 0x1234);
    for cut in 0..image.len() {
        let r = find_export_rva(&image[..cut], b"LoadLibraryW");
        assert!(r.is_err(), "truncated image of {} bytes resolved", cut);
    }
}

#[test]
fn corrupt_headers_give_typed_errors() {
    let image = synthetic_image("X", 1);

    let mut bad_dos = image.clone();
    bad_dos[0] = 0x00;
    assert_eq!(find_export_rva(&bad_dos, b"X"), Err(PeError::BadDosSignature));

    let mut bad_pe = image.clone();
    bad_pe[0x40] = 0x00;
    assert_eq!(find_export_rva(&bad_pe, b"X"), Err(PeError::BadPeSignature));

    let mut bad_magic = image.clone();
    put_u16(&mut bad_magic, 0x44 + 20, 0x999);
    assert_eq!(
        find_export_rva(&bad_magic, b"X"),
        Err(PeError::UnsupportedOptionalMagic { magic: 0x999 })
    );

    let mut no_exports = image.clone();
    put_u32(&mut no_exports, 0x44 + 20 + 96, 0);
    assert_eq!(find_export_rva(&no_exports, b"X"), Err(PeError::NoExportDirectory));

    let mut unmappable = image.clone();
    put_u32(&mut unmappable, 0x44 + 20 + 96, 0x9000);
    assert_eq!(
        find_export_rva(&unmappable, b"X"),
        Err(PeError::UnmappableRva { rva: 0x9000 })
    );
}

#[test]
fn field_reads_are_bounds_checked() {
    let data = [1u8, 2, 3, 4, 5];
    assert_eq!(read_u16(&data, 0), Ok(0x0201));
    assert_eq!(read_u32(&data, 1), Ok(0x0504_0302));
    assert_eq!(read_u16(&data, 4), Err(PeError::OutOfBounds));
    assert_eq!(read_u32(&data, 2), Err(PeError::OutOfBounds));
    assert_eq!(read_u32(&data, usize::MAX), Err(PeError::OutOfBounds));
}

#[test]
fn c_strings_stop_at_the_terminator() {
    let data = b"ab\0cd";
    assert_eq!(read_c_string(&data[..], 0), Ok(b"ab".to_vec()));
    assert_eq!(read_c_string(&data[..], 3), Err(PeError::UnterminatedString));
    assert_eq!(read_c_string(&data[..], 9), Err(PeError::OutOfBounds));
}
