//! Assembly of telemetry record fields whose values feed the dedup and
//! module tables: the library-load record, the surface-description
//! summary, and the hook coverage status lines.

use vstd::prelude::*;
use vstd::string::StringExecFns;
use crate::fmt::{spec_dec_digits, spec_hex_digits, u64_to_dec, u64_to_hex};
use crate::text::str_eq;

verus! {

/// The pieces of one library-load record: what the summary and result
/// fields say, and the key under which repeat loads are deduplicated.
pub struct DllLoadRecord {
    pub summary: String,
    pub result: String,
    pub key: String,
}

/// The summary of a library-load record: the intercepted entry point,
/// the module handle as the controller rendered it, and the requested
/// name when there was one.
pub open spec fn spec_dll_load_summary(
    source: Seq<char>,
    module_text: Seq<char>,
    requested: Seq<char>,
) -> Seq<char> {
    if requested.len() == 0 {
        source + " module="@ + module_text
    } else {
        source + " module="@ + module_text + " requested=\""@ + requested + "\""@
    }
}

/// The result of a library-load record: the loaded path, or a marker
/// for a failed load or an unavailable path.
pub open spec fn spec_dll_load_result(module_null: bool, path: Seq<char>) -> Seq<char> {
    if module_null {
        "(failed)"@
    } else if path.len() == 0 {
        "(path unavailable)"@
    } else {
        path
    }
}

/// The dedup key of a library-load record: the loaded path where it
/// tells something, else the requested name, else the whole summary.
pub open spec fn spec_dll_load_key(
    result: Seq<char>,
    requested: Seq<char>,
    summary: Seq<char>,
) -> Seq<char> {
    if result != "(failed)"@ && result != "(path unavailable)"@ && result.len() > 0 {
        result
    } else if requested.len() > 0 {
        requested
    } else {
        summary
    }
}

/// Assemble one library-load record from the intercepted call's data:
/// `module_text` is the module handle already rendered, `path` the
/// loaded module's resolved path (empty when unavailable).
pub fn dll_load_record(
    source: &str,
    requested: &str,
    module_null: bool,
    module_text: &str,
    path: String,
) -> (r: DllLoadRecord)
    ensures
        r.summary@ == spec_dll_load_summary(source@, module_text@, requested@),
        r.result@ == spec_dll_load_result(module_null, path@),
        r.key@ == spec_dll_load_key(r.result@, requested@, r.summary@),
{
    let mut summary = String::from_str(source);
    summary.append(" module=");
    summary.append(module_text);
    if !requested.is_empty() {
        summary.append(" requested=\"");
        summary.append(requested);
        summary.append("\"");
        assert(summary@ =~= spec_dll_load_summary(source@, module_text@, requested@));
    } else {
        assert(summary@ =~= spec_dll_load_summary(source@, module_text@, requested@));
    }

    let result: String = if module_null {
        String::from_str("(failed)")
    } else if path.as_str().is_empty() {
        String::from_str("(path unavailable)")
    } else {
        path
    };

    let result_tells = !str_eq(result.as_str(), "(failed)") && !str_eq(
        result.as_str(),
        "(path unavailable)",
    ) && !result.as_str().is_empty();
    let key: String = if result_tells {
        result.clone()
    } else if !requested.is_empty() {
        String::from_str(requested)
    } else {
        summary.clone()
    };
    DllLoadRecord { summary, result, key }
}

/// The summary of one attach-time snapshot row: the module handle as
/// the agent rendered it, and the module's name, quoted.
pub open spec fn spec_snapshot_summary(module_text: Seq<char>, name: Seq<char>) -> Seq<char> {
    "Snapshot module="@ + module_text + " name=\""@ + name + "\""@
}

/// Assemble one loaded-modules snapshot record: the summary names the
/// module, the result carries its path or the unavailable marker.
pub fn snapshot_module_record(module_text: &str, name: &str, path: String) -> (r: (String, String))
    ensures
        r.0@ == spec_snapshot_summary(module_text@, name@),
        path@.len() == 0 ==> r.1@ == "(path unavailable)"@,
        path@.len() > 0 ==> r.1@ == path@,
{
    let mut summary = String::from_str("Snapshot module=");
    summary.append(module_text);
    summary.append(" name=\"");
    summary.append(name);
    summary.append("\"");
    assert(summary@ =~= spec_snapshot_summary(module_text@, name@));
    let result: String = if path.as_str().is_empty() {
        String::from_str("(path unavailable)")
    } else {
        path
    };
    (summary, result)
}

/// The summary of an intercepted surface creation: the leading fields
/// of the surface description, or a marker when it cannot be read.
pub open spec fn spec_surface_desc_text(fields: Option<(u32, u32, u32, u32)>) -> Seq<char> {
    match fields {
        Some((size, flags, width, height)) => "size="@ + spec_dec_digits(size as int)
            + " flags=0x"@ + spec_hex_digits(flags as int, 8) + " width="@ + spec_dec_digits(
            width as int,
        ) + " height="@ + spec_dec_digits(height as int),
        None => "desc=unreadable"@,
    }
}

/// Render the leading fields of a surface description, read by the
/// caller after validating the pointer: size, flags, width and height,
/// or the unreadable marker when any read failed. A null description
/// renders as its own marker.
pub fn describe_dd_surface_desc(desc_null: bool, fields: Option<(u32, u32, u32, u32)>) -> (r:
    String)
    ensures
        desc_null ==> r@ == "desc=null"@,
        !desc_null ==> r@ == spec_surface_desc_text(fields),
{
    if desc_null {
        return String::from_str("desc=null");
    }
    match fields {
        Some((size, flags, width, height)) => {
            let mut s = String::from_str("size=");
            let d1 = u64_to_dec(size as u64);
            s.append(d1.as_str());
            s.append(" flags=0x");
            let h = u64_to_hex(flags as u64, 8);
            s.append(h.as_str());
            s.append(" width=");
            let d2 = u64_to_dec(width as u64);
            s.append(d2.as_str());
            s.append(" height=");
            let d3 = u64_to_dec(height as u64);
            s.append(d3.as_str());
            assert(s@ =~= spec_surface_desc_text(fields));
            s
        },
        None => String::from_str("desc=unreadable"),
    }
}

/// The lowercase rendering of a boolean in a status line.
pub open spec fn spec_flag_text(b: bool) -> Seq<char> {
    if b {
        "true"@
    } else {
        "false"@
    }
}

fn flag_text(b: bool) -> (r: &'static str)
    ensures
        r@ == spec_flag_text(b),
{
    if b {
        "true"
    } else {
        "false"
    }
}

/// Which runtime modules are loaded and which creation entry points are
/// hooked, for the coverage status event's summary field.
pub struct HookStatusSummary {
    pub ddraw_loaded: bool,
    pub ddrawex_loaded: bool,
    pub ole32_loaded: bool,
    pub create_hooked: bool,
    pub create_ex_hooked: bool,
    pub clipper_hooked: bool,
    pub create_surface_hooked: bool,
}

/// The summary line of the hook coverage status event.
pub open spec fn spec_hook_status_summary(s: HookStatusSummary) -> Seq<char> {
    "ddraw_loaded="@ + spec_flag_text(s.ddraw_loaded) + " ddrawex_loaded="@ + spec_flag_text(
        s.ddrawex_loaded,
    ) + " ole32_loaded="@ + spec_flag_text(s.ole32_loaded) + " create="@ + spec_flag_text(
        s.create_hooked,
    ) + " create_ex="@ + spec_flag_text(s.create_ex_hooked) + " clipper="@ + spec_flag_text(
        s.clipper_hooked,
    ) + " create_surface="@ + spec_flag_text(s.create_surface_hooked)
}

/// Render the hook coverage summary line.
pub fn hook_status_summary(s: &HookStatusSummary) -> (r: String)
    ensures
        r@ == spec_hook_status_summary(*s),
{
    let mut t = String::from_str("ddraw_loaded=");
    t.append(flag_text(s.ddraw_loaded));
    t.append(" ddrawex_loaded=");
    t.append(flag_text(s.ddrawex_loaded));
    t.append(" ole32_loaded=");
    t.append(flag_text(s.ole32_loaded));
    t.append(" create=");
    t.append(flag_text(s.create_hooked));
    t.append(" create_ex=");
    t.append(flag_text(s.create_ex_hooked));
    t.append(" clipper=");
    t.append(flag_text(s.clipper_hooked));
    t.append(" create_surface=");
    t.append(flag_text(s.create_surface_hooked));
    assert(t@ =~= spec_hook_status_summary(*s));
    t
}

} // verus!
