//! Portable Executable export resolution: given the raw bytes of an
//! on-disk module image and an export name, return the export's relative
//! virtual address (RVA) or a typed error. Every read is bounds-checked;
//! a malformed or truncated image yields an error, never a panic.

use vstd::prelude::*;
use crate::bytes::{compare_bytes, u16_at, u32_at, u16_from_le, u32_from_le};

verus! {

/// Why an export could not be resolved from an image.
#[derive(Clone, Copy, Debug, PartialEq, Eq, Structural)]
pub enum PeError {
    /// A field or string read past the end of the image bytes.
    OutOfBounds,
    /// A name string runs to the end of the image with no terminator.
    UnterminatedString,
    /// The legacy header signature is not `MZ`.
    BadDosSignature,
    /// The bytes at the legacy header's pointer are not `PE\0\0`.
    BadPeSignature,
    /// The optional header is neither the 32- nor the 64-bit layout.
    UnsupportedOptionalMagic { magic: u16 },
    /// The image exports nothing.
    NoExportDirectory,
    /// No section of the image contains this RVA.
    UnmappableRva { rva: u32 },
    /// The name pointer table holds no exact match for the export name.
    ExportNotFound,
}

/// Reading a little-endian 16-bit field: in bounds or `OutOfBounds`.
pub open spec fn spec_read_u16(d: Seq<u8>, off: int) -> Result<u16, PeError> {
    if 0 <= off && off + 2 <= d.len() {
        Ok(u16_at(d, off))
    } else {
        Err(PeError::OutOfBounds)
    }
}

/// Reading a little-endian 32-bit field: in bounds or `OutOfBounds`.
pub open spec fn spec_read_u32(d: Seq<u8>, off: int) -> Result<u32, PeError> {
    if 0 <= off && off + 4 <= d.len() {
        Ok(u32_at(d, off))
    } else {
        Err(PeError::OutOfBounds)
    }
}

/// The offset of the first zero byte at or after `off`, if any.
pub open spec fn first_nul(d: Seq<u8>, off: int) -> Option<int>
    decreases d.len() - off when 0 <= off <= d.len()
{
    if off >= d.len() {
        None
    } else if d[off] == 0 {
        Some(off)
    } else {
        first_nul(d, off + 1)
    }
}

/// The bytes of the zero-terminated string at `off`, terminator excluded.
pub open spec fn spec_read_c_string(d: Seq<u8>, off: int) -> Result<Seq<u8>, PeError> {
    if !(0 <= off <= d.len()) {
        Err(PeError::OutOfBounds)
    } else {
        match first_nul(d, off) {
            Some(end) => Ok(d.subrange(off, end)),
            None => Err(PeError::UnterminatedString),
        }
    }
}

pub fn read_u16(data: &[u8], off: usize) -> (r: Result<u16, PeError>)
    ensures
        r == spec_read_u16(data@, off as int),
{
    if off < data.len() && data.len() - off >= 2 {
        Ok(u16_from_le(data[off], data[off + 1]))
    } else {
        Err(PeError::OutOfBounds)
    }
}

pub fn read_u32(data: &[u8], off: usize) -> (r: Result<u32, PeError>)
    ensures
        r == spec_read_u32(data@, off as int),
{
    if off < data.len() && data.len() - off >= 4 {
        Ok(u32_from_le(data[off], data[off + 1], data[off + 2], data[off + 3]))
    } else {
        Err(PeError::OutOfBounds)
    }
}

/// `read_u16` at an offset that may exceed the address range of `usize`.
fn read_u16_at64(data: &[u8], off: u64) -> (r: Result<u16, PeError>)
    ensures
        r == spec_read_u16(data@, off as int),
{
    if off < data.len() as u64 {
        read_u16(data, off as usize)
    } else {
        Err(PeError::OutOfBounds)
    }
}

/// `read_u32` at an offset that may exceed the address range of `usize`.
fn read_u32_at64(data: &[u8], off: u64) -> (r: Result<u32, PeError>)
    ensures
        r == spec_read_u32(data@, off as int),
{
    if off < data.len() as u64 {
        read_u32(data, off as usize)
    } else {
        Err(PeError::OutOfBounds)
    }
}

/// The bytes of the zero-terminated string at `off`, terminator excluded.
pub fn read_c_string(data: &[u8], off: usize) -> (r: Result<Vec<u8>, PeError>)
    ensures
        match r {
            Ok(v) => spec_read_c_string(data@, off as int) == Ok::<Seq<u8>, PeError>(v@),
            Err(e) => spec_read_c_string(data@, off as int) == Err::<Seq<u8>, PeError>(e),
        },
{
    if off > data.len() {
        return Err(PeError::OutOfBounds);
    }
    let mut j: usize = off;
    loop
        invariant
            off <= j <= data.len(),
            first_nul(data@, off as int) == first_nul(data@, j as int),
        ensures
            off <= j < data.len(),
            data@[j as int] == 0,
            first_nul(data@, off as int) == Some(j as int),
        decreases data.len() - j,
    {
        if j == data.len() {
            return Err(PeError::UnterminatedString);
        }
        if data[j] == 0 {
            break;
        }
        j += 1;
    }
    let mut out: Vec<u8> = Vec::new();
    let mut k: usize = off;
    while k < j
        invariant
            off <= k <= j <= data.len(),
            out@ == data@.subrange(off as int, k as int),
        decreases j - k,
    {
        out.push(data[k]);
        assert(out@ =~= data@.subrange(off as int, k + 1));
        k += 1;
    }
    assert(data@.subrange(off as int, j as int) == out@);
    Ok(out)
}

/// One section-table row: whether the RVA falls inside the section, and if
/// so, the file offset it maps to. Section span is the larger of virtual
/// size and raw size; both the span end and the file offset saturate at
/// the 32-bit limit, as the scan works in 32-bit section fields.
pub open spec fn spec_section_maps(
    virtual_size: u32,
    virtual_address: u32,
    raw_size: u32,
    ptr_raw: u32,
    rva: u32,
) -> Option<int> {
    let span: int = if virtual_size >= raw_size { virtual_size as int } else { raw_size as int };
    let sec_end: int = if virtual_address + span <= 0xFFFF_FFFF {
        virtual_address + span
    } else {
        0xFFFF_FFFF
    };
    if virtual_address <= rva < sec_end {
        let sum: int = ptr_raw + (rva - virtual_address);
        Some(if sum <= 0xFFFF_FFFF { sum } else { 0xFFFF_FFFF })
    } else {
        None
    }
}

/// The section-table scan from row `i` on: the file offset of the first
/// section containing `rva`, `UnmappableRva` when none does or the
/// mapped offset lies past the image end, or the failing read's error.
pub open spec fn spec_rva_scan(d: Seq<u8>, sec_table: int, nsec: int, i: int, rva: u32) -> Result<
    int,
    PeError,
>
    decreases nsec - i when i <= nsec
{
    if i >= nsec {
        Err(PeError::UnmappableRva { rva })
    } else {
        let sec_off = sec_table + i * 40;
        match spec_read_u32(d, sec_off + 8) {
            Err(e) => Err(e),
            Ok(virtual_size) => match spec_read_u32(d, sec_off + 12) {
                Err(e) => Err(e),
                Ok(virtual_address) => match spec_read_u32(d, sec_off + 16) {
                    Err(e) => Err(e),
                    Ok(raw_size) => match spec_read_u32(d, sec_off + 20) {
                        Err(e) => Err(e),
                        Ok(ptr_raw) => match spec_section_maps(
                            virtual_size,
                            virtual_address,
                            raw_size,
                            ptr_raw,
                            rva,
                        ) {
                            Some(file_off) => if file_off < d.len() {
                                Ok(file_off)
                            } else {
                                Err(PeError::UnmappableRva { rva })
                            },
                            None => spec_rva_scan(d, sec_table, nsec, i + 1, rva),
                        },
                    },
                },
            },
        }
    }
}

/// Translate an RVA to a file offset by scanning the section table.
pub open spec fn spec_rva_to_offset(d: Seq<u8>, sec_table: int, nsec: int, rva: u32) -> Result<
    int,
    PeError,
> {
    spec_rva_scan(d, sec_table, nsec, 0, rva)
}

fn rva_to_offset(data: &[u8], sec_table: u64, nsec: u16, rva: u32) -> (r: Result<u64, PeError>)
    requires
        sec_table <= 0x2_0010_0000,
    ensures
        match r {
            Ok(o) => spec_rva_to_offset(data@, sec_table as int, nsec as int, rva) == Ok::<
                int,
                PeError,
            >(o as int) && o <= 0xFFFF_FFFF && o < data@.len(),
            Err(e) => spec_rva_to_offset(data@, sec_table as int, nsec as int, rva) == Err::<
                int,
                PeError,
            >(e),
        },
{
    let mut i: u16 = 0;
    while i < nsec
        invariant
            i <= nsec,
            sec_table <= 0x2_0010_0000,
            spec_rva_scan(data@, sec_table as int, nsec as int, 0, rva) == spec_rva_scan(
                data@,
                sec_table as int,
                nsec as int,
                i as int,
                rva,
            ),
        decreases nsec - i,
    {
        let sec_off: u64 = sec_table + (i as u64) * 40;
        let virtual_size = match read_u32_at64(data, sec_off + 8) {
            Ok(v) => v,
            Err(e) => {
                return Err(e);
            },
        };
        let virtual_address = match read_u32_at64(data, sec_off + 12) {
            Ok(v) => v,
            Err(e) => {
                return Err(e);
            },
        };
        let raw_size = match read_u32_at64(data, sec_off + 16) {
            Ok(v) => v,
            Err(e) => {
                return Err(e);
            },
        };
        let ptr_raw = match read_u32_at64(data, sec_off + 20) {
            Ok(v) => v,
            Err(e) => {
                return Err(e);
            },
        };

        let span: u64 = if virtual_size >= raw_size {
            virtual_size as u64
        } else {
            raw_size as u64
        };
        let sec_end: u64 = if virtual_address as u64 + span <= 0xFFFF_FFFF {
            virtual_address as u64 + span
        } else {
            0xFFFF_FFFF
        };
        if virtual_address as u64 <= rva as u64 && (rva as u64) < sec_end {
            let sum: u64 = ptr_raw as u64 + (rva as u64 - virtual_address as u64);
            let file_off: u64 = if sum <= 0xFFFF_FFFF {
                sum
            } else {
                0xFFFF_FFFF
            };
            if file_off < data.len() as u64 {
                return Ok(file_off);
            } else {
                return Err(PeError::UnmappableRva { rva });
            }
        }
        i += 1;
    }
    Err(PeError::UnmappableRva { rva })
}

/// The export-name scan from entry `i` on: the function-table RVA of the
/// first name-table entry equal to `name`, mapped through the ordinal
/// table; `ExportNotFound` when no entry matches.
pub open spec fn spec_name_scan(
    d: Seq<u8>,
    sec_table: int,
    nsec: int,
    names_off: int,
    ords_off: int,
    funcs_off: int,
    n_names: int,
    i: int,
    name: Seq<u8>,
) -> Result<u32, PeError>
    decreases n_names - i when i <= n_names
{
    if i >= n_names {
        Err(PeError::ExportNotFound)
    } else {
        match spec_read_u32(d, names_off + i * 4) {
            Err(e) => Err(e),
            Ok(name_rva) => match spec_rva_to_offset(d, sec_table, nsec, name_rva) {
                Err(e) => Err(e),
                Ok(name_off) => match spec_read_c_string(d, name_off) {
                    Err(e) => Err(e),
                    Ok(nm) => if nm == name {
                        match spec_read_u16(d, ords_off + i * 2) {
                            Err(e) => Err(e),
                            Ok(ordinal) => spec_read_u32(d, funcs_off + ordinal * 4),
                        }
                    } else {
                        spec_name_scan(
                            d,
                            sec_table,
                            nsec,
                            names_off,
                            ords_off,
                            funcs_off,
                            n_names,
                            i + 1,
                            name,
                        )
                    },
                },
            },
        }
    }
}

/// The meaning of `find_export_rva`: validate the legacy and PE header
/// signatures, pick the optional-header layout from its magic, locate the
/// export directory, map its tables through the section table, and scan
/// the name pointer table for an exact match.
pub open spec fn spec_find_export_rva(d: Seq<u8>, name: Seq<u8>) -> Result<u32, PeError> {
    match spec_read_u16(d, 0) {
        Err(e) => Err(e),
        Ok(dos_magic) => if dos_magic != 0x5A4D {
            Err(PeError::BadDosSignature)
        } else {
            match spec_read_u32(d, 0x3C) {
                Err(e) => Err(e),
                Ok(nt_off32) => {
                    let nt_off = nt_off32 as int;
                    match spec_read_u32(d, nt_off) {
                        Err(e) => Err(e),
                        Ok(pe_sig) => if pe_sig != 0x0000_4550 {
                            Err(PeError::BadPeSignature)
                        } else {
                            let coff_off = nt_off + 4;
                            match spec_read_u16(d, coff_off + 2) {
                                Err(e) => Err(e),
                                Ok(nsec) => match spec_read_u16(d, coff_off + 16) {
                                    Err(e) => Err(e),
                                    Ok(size_opt) => {
                                        let opt_off = coff_off + 20;
                                        match spec_read_u16(d, opt_off) {
                                            Err(e) => Err(e),
                                            Ok(magic) => if magic != 0x10B && magic != 0x20B {
                                                Err(PeError::UnsupportedOptionalMagic { magic })
                                            } else {
                                                let export_dir_off = opt_off + (if magic == 0x10B {
                                                    96int
                                                } else {
                                                    112int
                                                });
                                                spec_resolve_exports(
                                                    d,
                                                    opt_off + size_opt,
                                                    nsec as int,
                                                    export_dir_off,
                                                    name,
                                                )
                                            },
                                        }
                                    },
                                },
                            }
                        },
                    }
                },
            }
        },
    }
}

/// The tail of `spec_find_export_rva` once the section table and export
/// directory are located.
pub open spec fn spec_resolve_exports(
    d: Seq<u8>,
    sec_table: int,
    nsec: int,
    export_dir_off: int,
    name: Seq<u8>,
) -> Result<u32, PeError> {
    match spec_read_u32(d, export_dir_off) {
        Err(e) => Err(e),
        Ok(export_rva) => if export_rva == 0 {
            Err(PeError::NoExportDirectory)
        } else {
            match spec_rva_to_offset(d, sec_table, nsec, export_rva) {
                Err(e) => Err(e),
                Ok(export_off) => match spec_read_u32(d, export_off + 24) {
                    Err(e) => Err(e),
                    Ok(n_names) => match spec_read_u32(d, export_off + 28) {
                        Err(e) => Err(e),
                        Ok(funcs_rva) => match spec_read_u32(d, export_off + 32) {
                            Err(e) => Err(e),
                            Ok(names_rva) => match spec_read_u32(d, export_off + 36) {
                                Err(e) => Err(e),
                                Ok(ords_rva) => match spec_rva_to_offset(
                                    d,
                                    sec_table,
                                    nsec,
                                    names_rva,
                                ) {
                                    Err(e) => Err(e),
                                    Ok(names_off) => match spec_rva_to_offset(
                                        d,
                                        sec_table,
                                        nsec,
                                        ords_rva,
                                    ) {
                                        Err(e) => Err(e),
                                        Ok(ords_off) => match spec_rva_to_offset(
                                            d,
                                            sec_table,
                                            nsec,
                                            funcs_rva,
                                        ) {
                                            Err(e) => Err(e),
                                            Ok(funcs_off) => spec_name_scan(
                                                d,
                                                sec_table,
                                                nsec,
                                                names_off,
                                                ords_off,
                                                funcs_off,
                                                n_names as int,
                                                0,
                                                name,
                                            ),
                                        },
                                    },
                                },
                            },
                        },
                    },
                },
            }
        },
    }
}

/// Resolve the RVA of the export named `export_name` (exact byte match)
/// from the raw bytes of a PE image.
pub fn find_export_rva(data: &[u8], export_name: &[u8]) -> (r: Result<u32, PeError>)
    ensures
        r == spec_find_export_rva(data@, export_name@),
{
    let dos_magic = match read_u16(data, 0) {
        Ok(v) => v,
        Err(e) => {
            return Err(e);
        },
    };
    if dos_magic != 0x5A4D {
        return Err(PeError::BadDosSignature);
    }
    let nt_off32 = match read_u32(data, 0x3C) {
        Ok(v) => v,
        Err(e) => {
            return Err(e);
        },
    };
    let nt_off: u64 = nt_off32 as u64;
    let pe_sig = match read_u32_at64(data, nt_off) {
        Ok(v) => v,
        Err(e) => {
            return Err(e);
        },
    };
    if pe_sig != 0x0000_4550 {
        return Err(PeError::BadPeSignature);
    }
    let coff_off: u64 = nt_off + 4;
    let nsec = match read_u16_at64(data, coff_off + 2) {
        Ok(v) => v,
        Err(e) => {
            return Err(e);
        },
    };
    let size_opt = match read_u16_at64(data, coff_off + 16) {
        Ok(v) => v,
        Err(e) => {
            return Err(e);
        },
    };
    let opt_off: u64 = coff_off + 20;
    let magic = match read_u16_at64(data, opt_off) {
        Ok(v) => v,
        Err(e) => {
            return Err(e);
        },
    };
    if magic != 0x10B && magic != 0x20B {
        return Err(PeError::UnsupportedOptionalMagic { magic });
    }
    let export_dir_off: u64 = opt_off + (if magic == 0x10B {
        96
    } else {
        112
    });
    let sec_table: u64 = opt_off + size_opt as u64;

    resolve_exports(data, sec_table, nsec, export_dir_off, export_name)
}

fn resolve_exports(
    data: &[u8],
    sec_table: u64,
    nsec: u16,
    export_dir_off: u64,
    export_name: &[u8],
) -> (r: Result<u32, PeError>)
    requires
        sec_table <= 0x2_0010_0000,
    ensures
        r == spec_resolve_exports(
            data@,
            sec_table as int,
            nsec as int,
            export_dir_off as int,
            export_name@,
        ),
{
    let export_rva = match read_u32_at64(data, export_dir_off) {
        Ok(v) => v,
        Err(e) => {
            return Err(e);
        },
    };
    if export_rva == 0 {
        return Err(PeError::NoExportDirectory);
    }
    let export_off = match rva_to_offset(data, sec_table, nsec, export_rva) {
        Ok(v) => v,
        Err(e) => {
            return Err(e);
        },
    };
    let n_names = match read_u32_at64(data, export_off + 24) {
        Ok(v) => v,
        Err(e) => {
            return Err(e);
        },
    };
    let funcs_rva = match read_u32_at64(data, export_off + 28) {
        Ok(v) => v,
        Err(e) => {
            return Err(e);
        },
    };
    let names_rva = match read_u32_at64(data, export_off + 32) {
        Ok(v) => v,
        Err(e) => {
            return Err(e);
        },
    };
    let ords_rva = match read_u32_at64(data, export_off + 36) {
        Ok(v) => v,
        Err(e) => {
            return Err(e);
        },
    };
    let names_off = match rva_to_offset(data, sec_table, nsec, names_rva) {
        Ok(v) => v,
        Err(e) => {
            return Err(e);
        },
    };
    let ords_off = match rva_to_offset(data, sec_table, nsec, ords_rva) {
        Ok(v) => v,
        Err(e) => {
            return Err(e);
        },
    };
    let funcs_off = match rva_to_offset(data, sec_table, nsec, funcs_rva) {
        Ok(v) => v,
        Err(e) => {
            return Err(e);
        },
    };
    name_scan(data, sec_table, nsec, names_off, ords_off, funcs_off, n_names, export_name)
}

fn name_scan(
    data: &[u8],
    sec_table: u64,
    nsec: u16,
    names_off: u64,
    ords_off: u64,
    funcs_off: u64,
    n_names: u32,
    export_name: &[u8],
) -> (r: Result<u32, PeError>)
    requires
        sec_table <= 0x2_0010_0000,
        names_off <= 0xFFFF_FFFF,
        ords_off <= 0xFFFF_FFFF,
        funcs_off <= 0xFFFF_FFFF,
    ensures
        r == spec_name_scan(
            data@,
            sec_table as int,
            nsec as int,
            names_off as int,
            ords_off as int,
            funcs_off as int,
            n_names as int,
            0,
            export_name@,
        ),
{
    let mut i: u64 = 0;
    while i < n_names as u64
        invariant
            i <= n_names as u64,
            names_off <= 0xFFFF_FFFF,
            ords_off <= 0xFFFF_FFFF,
            funcs_off <= 0xFFFF_FFFF,
            sec_table <= 0x2_0010_0000,
            spec_name_scan(
                data@,
                sec_table as int,
                nsec as int,
                names_off as int,
                ords_off as int,
                funcs_off as int,
                n_names as int,
                0,
                export_name@,
            ) == spec_name_scan(
                data@,
                sec_table as int,
                nsec as int,
                names_off as int,
                ords_off as int,
                funcs_off as int,
                n_names as int,
                i as int,
                export_name@,
            ),
        decreases n_names as u64 - i,
    {
        let name_rva = match read_u32_at64(data, names_off + i * 4) {
            Ok(v) => v,
            Err(e) => {
                return Err(e);
            },
        };
        let name_off = match rva_to_offset(data, sec_table, nsec, name_rva) {
            Ok(v) => v,
            Err(e) => {
                return Err(e);
            },
        };
        let name = match read_c_string(data, name_off as usize) {
            Ok(v) => v,
            Err(e) => {
                return Err(e);
            },
        };
        if compare_bytes(name.as_slice(), export_name) {
            let ordinal = match read_u16_at64(data, ords_off + i * 2) {
                Ok(v) => v,
                Err(e) => {
                    return Err(e);
                },
            };
            return read_u32_at64(data, funcs_off + (ordinal as u64) * 4);
        }
        i += 1;
    }
    Err(PeError::ExportNotFound)
}

} // verus!
