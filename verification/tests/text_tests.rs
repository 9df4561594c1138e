use win_api_trace::ascii::contains_ignore_ascii_case;
use win_api_trace::report::{
    describe_dd_surface_desc, dll_load_record, hook_status_summary, snapshot_module_record,
    HookStatusSummary,
};
use win_api_trace::text::{
    contains_str, display_proc, ends_with, eq_ignore_ascii_case, should_emit_snapshot_module,
    source_is_directdraw_extended_interface, source_is_directdraw_legacy_interface, starts_with,
    str_eq, trim_spaces, utf16_to_string, utf16z_to_string, DedupSet,
};

#[test]
fn case_insensitive_search() {
    assert!(contains_ignore_ascii_case("CreateWindowExW", "window"));
    assert!(contains_ignore_ascii_case("CreateWindowExW", ""));
    assert!(contains_ignore_ascii_case("abc", "ABC"));
    assert!(!contains_ignore_ascii_case("abc", "abcd"));
    assert!(!contains_ignore_ascii_case("DirectDraw", "d3d9"));
    assert!(contains_ignore_ascii_case("IDirectDraw7::Blt", "bLT"));
}

#[test]
fn trimming_and_matching() {
    assert_eq!(trim_spaces("  x y\t\n"), "x y");
    assert_eq!(trim_spaces(""), "");
    assert_eq!(trim_spaces(" \t "), "");
    assert!(str_eq("abc", "abc"));
    assert!(!str_eq("abc", "abd"));
    assert!(starts_with("DirectDrawCreateEx", "DirectDraw"));
    assert!(!starts_with("IDirectDraw", "DirectDraw"));
    assert!(ends_with("probe->IDirectDraw7", "->IDirectDraw7"));
    assert!(!ends_with("x", "longer"));
    assert!(contains_str("CoCreateInstance CLSID_DirectDraw", "DirectDraw"));
    assert!(!contains_str("CoCreateInstance", "DirectDraw"));
    assert!(eq_ignore_ascii_case("DDRAW.DLL", "ddraw.dll"));
    assert!(!eq_ignore_ascii_case("ddraw.dll", "ddrawex.dll"));
}

#[test]
fn zero_terminated_buffers_decode_to_their_prefix() {
    let wide: Vec<u16> = "ddraw.dll\0garbage".encode_utf16().collect();
    assert_eq!(utf16z_to_string(&wide), "ddraw.dll");
    assert_eq!(utf16_to_string(&wide), "ddraw.dll");
    let unterminated: Vec<u16> = "abc".encode_utf16().collect();
    assert_eq!(utf16z_to_string(&unterminated), "abc");
    assert_eq!(utf16z_to_string(&[]), "");

    assert_eq!(display_proc(b"CreateWindowExW\0junk"), "CreateWindowExW");
    assert_eq!(display_proc(b"NoTerminator"), "NoTerminator");
}

#[test]
fn snapshot_module_selection() {
    assert!(should_emit_snapshot_module("ddraw.dll"));
    assert!(should_emit_snapshot_module("DDRAW.DLL"));
    assert!(should_emit_snapshot_module("d3d9.dll"));
    assert!(should_emit_snapshot_module("d3dcompiler_47.dll"));
    assert!(should_emit_snapshot_module("D3DCompiler_43.DLL"));
    assert!(!should_emit_snapshot_module("ntdll.dll"));
    assert!(!should_emit_snapshot_module("game.exe"));
}

#[test]
fn interface_revision_tags() {
    assert!(source_is_directdraw_legacy_interface("DirectDrawCreate"));
    assert!(source_is_directdraw_legacy_interface("DirectDrawProbe->IDirectDraw"));
    assert!(!source_is_directdraw_legacy_interface("DirectDrawCreateEx"));
    assert!(source_is_directdraw_extended_interface("DirectDrawCreateEx"));
    assert!(source_is_directdraw_extended_interface("DirectDrawProbe->IDirectDraw7"));
    assert!(!source_is_directdraw_extended_interface("DirectDrawCreate"));
}

#[test]
fn dedup_set_reports_each_key_once() {
    let mut set = DedupSet::new();
    assert!(set.insert("a".to_string()));
    assert!(set.insert("b".to_string()));
    assert!(!set.insert("a".to_string()));
    assert_eq!(set.len(), 2);
}

#[test]
fn library_load_records() {
    let r = dll_load_record(
        "LoadLibraryW",
        "ddraw.dll",
        false,
        "0x7ffa12340000",
        "C:\\Windows\\System32\\ddraw.dll".to_string(),
    );
    assert_eq!(
        r.summary,
        "LoadLibraryW module=0x7ffa12340000 requested=\"ddraw.dll\""
    );
    assert_eq!(r.result, "C:\\Windows\\System32\\ddraw.dll");
    assert_eq!(r.key, "C:\\Windows\\System32\\ddraw.dll");

    // a failed load keys by the requested name
    let r = dll_load_record("LoadLibraryA", "nope.dll", true, "0x0", String::new());
    assert_eq!(r.summary, "LoadLibraryA module=0x0 requested=\"nope.dll\"");
    assert_eq!(r.result, "(failed)");
    assert_eq!(r.key, "nope.dll");

    // no path and no requested name: the summary is the key
    let r = dll_load_record("LoadLibraryExW", "", false, "0x1000", String::new());
    assert_eq!(r.summary, "LoadLibraryExW module=0x1000");
    assert_eq!(r.result, "(path unavailable)");
    assert_eq!(r.key, "LoadLibraryExW module=0x1000");
}

#[test]
fn surface_descriptions() {
    assert_eq!(describe_dd_surface_desc(true, None), "desc=null");
    assert_eq!(describe_dd_surface_desc(false, None), "desc=unreadable");
    assert_eq!(
        describe_dd_surface_desc(false, Some((124, 0x1006, 640, 480))),
        "size=124 flags=0x00001006 width=640 height=480"
    );
}

#[test]
fn hook_status_line() {
    let s = HookStatusSummary {
        ddraw_loaded: true,
        ddrawex_loaded: false,
        ole32_loaded: true,
        create_hooked: true,
        create_ex_hooked: false,
        clipper_hooked: false,
        create_surface_hooked: true,
    };
    assert_eq!(
        hook_status_summary(&s),
        "ddraw_loaded=true ddrawex_loaded=false ole32_loaded=true create=true create_ex=false clipper=false create_surface=true"
    );
}

#[test]
fn snapshot_records() {
    let (summary, result) = snapshot_module_record(
        "0x7ffa0000",
        "ddraw.dll",
        "C:\\Windows\\System32\\ddraw.dll".to_string(),
    );
    assert_eq!(summary, "Snapshot module=0x7ffa0000 name=\"ddraw.dll\"");
    assert_eq!(result, "C:\\Windows\\System32\\ddraw.dll");
    let (_, result) = snapshot_module_record("0x1", "x.dll", String::new());
    assert_eq!(result, "(path unavailable)");
}
