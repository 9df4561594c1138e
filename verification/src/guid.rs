//! COM interface and class identifiers of the DirectDraw family, and
//! the identifier tests the interception layer makes on them.

use vstd::prelude::*;

verus! {

/// A COM globally unique identifier, by value.
#[derive(Clone, Copy, Debug)]
pub struct Guid {
    pub data1: u32,
    pub data2: u16,
    pub data3: u16,
    pub data4: [u8; 8],
}

pub open spec fn spec_clsid_directdraw() -> Guid {
    Guid {
        data1: 0xD7B70EE0,
        data2: 0x4340,
        data3: 0x11CF,
        data4: [0xB0, 0x63, 0x00, 0x20, 0xAF, 0xC2, 0xCD, 0x35],
    }
}

pub open spec fn spec_clsid_directdraw7() -> Guid {
    Guid {
        data1: 0x3C305196,
        data2: 0x50DB,
        data3: 0x11D3,
        data4: [0x9C, 0xFE, 0x00, 0xC0, 0x4F, 0xD9, 0x30, 0xC5],
    }
}

pub open spec fn spec_iid_idirectdraw() -> Guid {
    Guid {
        data1: 0x6C14DB80,
        data2: 0xA733,
        data3: 0x11CE,
        data4: [0xA5, 0x21, 0x00, 0x20, 0xAF, 0x0B, 0xE5, 0x60],
    }
}

pub open spec fn spec_iid_idirectdraw2() -> Guid {
    Guid {
        data1: 0xB3A6F3E0,
        data2: 0x2B43,
        data3: 0x11CF,
        data4: [0xA2, 0xDE, 0x00, 0xAA, 0x00, 0xB9, 0x33, 0x56],
    }
}

pub open spec fn spec_iid_idirectdraw4() -> Guid {
    Guid {
        data1: 0x9C59509A,
        data2: 0x39BD,
        data3: 0x11D1,
        data4: [0x8C, 0x4A, 0x00, 0xC0, 0x4F, 0xD9, 0x30, 0xC5],
    }
}

pub open spec fn spec_iid_idirectdraw7() -> Guid {
    Guid {
        data1: 0x15E65EC0,
        data2: 0x3B9C,
        data3: 0x11D2,
        data4: [0xB9, 0x2F, 0x00, 0x60, 0x97, 0x97, 0xEA, 0x5B],
    }
}

pub fn clsid_directdraw() -> (g: Guid)
    ensures
        g == spec_clsid_directdraw(),
{
    Guid {
        data1: 0xD7B70EE0,
        data2: 0x4340,
        data3: 0x11CF,
        data4: [0xB0, 0x63, 0x00, 0x20, 0xAF, 0xC2, 0xCD, 0x35],
    }
}

pub fn clsid_directdraw7() -> (g: Guid)
    ensures
        g == spec_clsid_directdraw7(),
{
    Guid {
        data1: 0x3C305196,
        data2: 0x50DB,
        data3: 0x11D3,
        data4: [0x9C, 0xFE, 0x00, 0xC0, 0x4F, 0xD9, 0x30, 0xC5],
    }
}

pub fn iid_idirectdraw() -> (g: Guid)
    ensures
        g == spec_iid_idirectdraw(),
{
    Guid {
        data1: 0x6C14DB80,
        data2: 0xA733,
        data3: 0x11CE,
        data4: [0xA5, 0x21, 0x00, 0x20, 0xAF, 0x0B, 0xE5, 0x60],
    }
}

pub fn iid_idirectdraw2() -> (g: Guid)
    ensures
        g == spec_iid_idirectdraw2(),
{
    Guid {
        data1: 0xB3A6F3E0,
        data2: 0x2B43,
        data3: 0x11CF,
        data4: [0xA2, 0xDE, 0x00, 0xAA, 0x00, 0xB9, 0x33, 0x56],
    }
}

pub fn iid_idirectdraw4() -> (g: Guid)
    ensures
        g == spec_iid_idirectdraw4(),
{
    Guid {
        data1: 0x9C59509A,
        data2: 0x39BD,
        data3: 0x11D1,
        data4: [0x8C, 0x4A, 0x00, 0xC0, 0x4F, 0xD9, 0x30, 0xC5],
    }
}

pub fn iid_idirectdraw7() -> (g: Guid)
    ensures
        g == spec_iid_idirectdraw7(),
{
    Guid {
        data1: 0x15E65EC0,
        data2: 0x3B9C,
        data3: 0x11D2,
        data4: [0xB9, 0x2F, 0x00, 0x60, 0x97, 0x97, 0xEA, 0x5B],
    }
}

/// Field-for-field equality of two identifiers.
pub open spec fn spec_guid_eq(a: Guid, b: Guid) -> bool {
    a.data1 == b.data1 && a.data2 == b.data2 && a.data3 == b.data3 && a.data4@ == b.data4@
}

/// Exact equality of two identifier values. The caller validates that
/// the bytes it read came from accessible memory before building the
/// value.
pub fn guid_matches(candidate: &Guid, expected: &Guid) -> (r: bool)
    ensures
        r == spec_guid_eq(*candidate, *expected),
{
    if candidate.data1 != expected.data1 || candidate.data2 != expected.data2 || candidate.data3
        != expected.data3 {
        return false;
    }
    let mut i: usize = 0;
    while i < 8
        invariant
            i <= 8,
            candidate.data4@.len() == 8,
            expected.data4@.len() == 8,
            candidate.data1 == expected.data1,
            candidate.data2 == expected.data2,
            candidate.data3 == expected.data3,
            forall|k: int| 0 <= k < i ==> candidate.data4@[k] == expected.data4@[k],
        decreases 8 - i,
    {
        if candidate.data4[i] != expected.data4[i] {
            assert(candidate.data4@ != expected.data4@);
            return false;
        }
        i += 1;
    }
    assert(candidate.data4@ =~= expected.data4@);
    true
}

/// Whether an identifier names one of the DirectDraw interface
/// revisions the engine covers.
pub fn is_directdraw_interface_iid(iid: &Guid) -> (r: bool)
    ensures
        r == (spec_guid_eq(*iid, spec_iid_idirectdraw()) || spec_guid_eq(
            *iid,
            spec_iid_idirectdraw2(),
        ) || spec_guid_eq(*iid, spec_iid_idirectdraw4()) || spec_guid_eq(
            *iid,
            spec_iid_idirectdraw7(),
        )),
{
    let a = iid_idirectdraw();
    let b = iid_idirectdraw2();
    let c = iid_idirectdraw4();
    let d = iid_idirectdraw7();
    guid_matches(iid, &a) || guid_matches(iid, &b) || guid_matches(iid, &c) || guid_matches(
        iid,
        &d,
    )
}

/// Whether an identifier names one of the classes behind a DirectDraw
/// object creation.
pub fn is_directdraw_clsid(clsid: &Guid) -> (r: bool)
    ensures
        r == (spec_guid_eq(*clsid, spec_clsid_directdraw()) || spec_guid_eq(
            *clsid,
            spec_clsid_directdraw7(),
        )),
{
    let a = clsid_directdraw();
    let b = clsid_directdraw7();
    guid_matches(clsid, &a) || guid_matches(clsid, &b)
}

/// An identifier read from foreign memory is absent when its pointer
/// failed the accessibility check.
pub open spec fn spec_opt_is_directdraw_iid(g: Option<Guid>) -> bool {
    match g {
        Some(g) => spec_guid_eq(g, spec_iid_idirectdraw()) || spec_guid_eq(
            g,
            spec_iid_idirectdraw2(),
        ) || spec_guid_eq(g, spec_iid_idirectdraw4()) || spec_guid_eq(g, spec_iid_idirectdraw7()),
        None => false,
    }
}

pub open spec fn spec_opt_is_directdraw_clsid(g: Option<Guid>) -> bool {
    match g {
        Some(g) => spec_guid_eq(g, spec_clsid_directdraw()) || spec_guid_eq(
            g,
            spec_clsid_directdraw7(),
        ),
        None => false,
    }
}

/// Whether an intercepted instance creation asks for DirectDraw at all:
/// by its class, or by the interface it requests. An unreadable
/// identifier pointer reads as no match.
pub fn co_create_is_directdraw_request(rclsid: Option<Guid>, riid: Option<Guid>) -> (r: bool)
    ensures
        r == (spec_opt_is_directdraw_clsid(rclsid) || spec_opt_is_directdraw_iid(riid)),
{
    let clsid_hit = match rclsid {
        Some(g) => is_directdraw_clsid(&g),
        None => false,
    };
    if clsid_hit {
        return true;
    }
    match riid {
        Some(g) => is_directdraw_interface_iid(&g),
        None => false,
    }
}

/// One row of a multi-interface creation call, as the interception
/// reads it back: the requested identifier (absent when unreadable),
/// the per-interface result code, and whether the object is null.
#[derive(Clone, Copy, Debug)]
pub struct MultiQiView {
    pub iid: Option<Guid>,
    pub hr: i32,
    pub out_null: bool,
}

/// A row whose returned object feeds the discovery walk: a DirectDraw
/// interface, created successfully, non-null.
pub open spec fn spec_multi_qi_usable(q: MultiQiView) -> bool {
    spec_opt_is_directdraw_iid(q.iid) && q.hr >= 0 && !q.out_null
}

/// The rows of the usable results, in order.
pub open spec fn spec_multi_qi_usable_prefix(rows: Seq<MultiQiView>, k: int) -> Seq<usize>
    decreases k when 0 <= k <= rows.len()
{
    if k <= 0 {
        Seq::empty()
    } else {
        let p = spec_multi_qi_usable_prefix(rows, k - 1);
        if spec_multi_qi_usable(rows[k - 1]) {
            p.push((k - 1) as usize)
        } else {
            p
        }
    }
}

/// Whether any row of a multi-interface creation asks for a DirectDraw
/// revision.
pub fn multi_qi_requests_directdraw(rows: &Vec<MultiQiView>) -> (r: bool)
    ensures
        r == exists|i: int|
            0 <= i < rows@.len() && spec_opt_is_directdraw_iid((#[trigger] rows@[i]).iid),
{
    let mut i: usize = 0;
    while i < rows.len()
        invariant
            i <= rows@.len(),
            forall|k: int| 0 <= k < i ==> !spec_opt_is_directdraw_iid((#[trigger] rows@[k]).iid),
        decreases rows@.len() - i,
    {
        let hit = match rows[i].iid {
            Some(g) => is_directdraw_interface_iid(&g),
            None => false,
        };
        if hit {
            return true;
        }
        i += 1;
    }
    false
}

/// The rows of a multi-interface creation whose objects get the
/// discovery walk: DirectDraw revisions that were created successfully
/// with a non-null object. Every other row is left alone.
pub fn multi_qi_install_indices(rows: &Vec<MultiQiView>) -> (r: Vec<usize>)
    ensures
        r@ == spec_multi_qi_usable_prefix(rows@, rows@.len() as int),
{
    let mut out: Vec<usize> = Vec::new();
    let mut i: usize = 0;
    while i < rows.len()
        invariant
            i <= rows@.len(),
            out@ == spec_multi_qi_usable_prefix(rows@, i as int),
        decreases rows@.len() - i,
    {
        let row = rows[i];
        let dd = match row.iid {
            Some(g) => is_directdraw_interface_iid(&g),
            None => false,
        };
        if dd && hr_ok(row.hr) && !row.out_null {
            out.push(i);
        }
        i += 1;
    }
    out
}

fn hr_ok(hr: i32) -> (r: bool)
    ensures
        r == (hr >= 0),
{
    hr >= 0
}

} // verus!
