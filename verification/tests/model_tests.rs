use win_api_trace::dll::{basename, LoadedDlls};
use win_api_trace::event::{make_event, smoke_test_event, Event};
use win_api_trace::filters::{
    is_directdraw_api, is_directdraw_call_api, is_other_graphics_api, is_window_display_api,
    is_window_display_or_graphics_api, ApiScope, EventFilters, EventSort, EventSortColumn,
};

fn event(api: &str, summary: &str, result: &str) -> Event {
    Event::new(1000, api, summary, "game.exe", 17, result)
}

#[test]
fn event_construction() {
    let e = Event::new(12, "SetWindowPos", "s", "c", 9, "TRUE");
    assert_eq!(e.timestamp_ms, 12);
    assert_eq!(e.api, "SetWindowPos");
    assert_eq!(e.summary, "s");
    assert_eq!(e.caller, "c");
    assert_eq!(e.thread_id, 9);
    assert_eq!(e.result, "TRUE");

    let e = make_event("MoveWindow", "sum".to_string(), "TRUE".to_string(), 5, 1234, 56);
    assert_eq!(e.caller, "pid:1234 thread:56");
    assert_eq!(e.api, "MoveWindow");
}

#[test]
fn sample_events_shape() {
    let v = Event::sample_events();
    assert_eq!(v.len(), 10);
    assert_eq!(v[0].api, "CreateWindowExW");
    assert_eq!(v[0].timestamp_ms, 12_100);
    assert_eq!(v[9].api, "SetWindowPos");
}

#[test]
fn api_classification() {
    assert!(is_window_display_api("CreateWindowExW"));
    assert!(is_window_display_api("AdjustWindowRectEx"));
    assert!(!is_window_display_api("GetClientRect"));
    assert!(is_other_graphics_api("Direct3DCreate9"));
    assert!(is_other_graphics_api("DirectDrawHookStatus"));
    assert!(is_directdraw_api("DirectDrawCreateEx"));
    assert!(is_directdraw_api("IDirectDraw7::SetDisplayMode"));
    assert!(is_directdraw_api("CoCreateInstance CLSID_DirectDraw"));
    assert!(!is_directdraw_api("CoCreateInstance CLSID_Other"));
    // the bookkeeping events are not calls
    assert!(is_directdraw_api("DirectDrawHookStatus"));
    assert!(!is_directdraw_call_api("DirectDrawHookStatus"));
    assert!(!is_directdraw_call_api("DirectDrawHookInstall"));
    assert!(is_directdraw_call_api("DirectDrawCreate"));
    assert!(is_window_display_or_graphics_api("MoveWindow"));
    assert!(is_window_display_or_graphics_api("IDirectDraw::Blt"));
    assert!(!is_window_display_or_graphics_api("SendMessageW"));
}

#[test]
fn filters_scope_and_query() {
    let mut f = EventFilters {
        text_query: String::new(),
        api_scope: ApiScope::DirectDrawCallsOnly,
        sort: EventSort { column: EventSortColumn::Time, descending: false },
    };
    assert!(f.matches(&event("IDirectDraw7::Flip", "", "DD_OK")));
    assert!(!f.matches(&event("CreateWindowExW", "", "TRUE")));
    assert!(!f.matches(&event("DirectDrawHookStatus", "", "")));

    f.api_scope = ApiScope::All;
    assert!(f.matches(&event("Anything", "", "")));

    f.text_query = "  reSIZE  ".to_string();
    assert!(f.matches(&event("SetWindowPos", "Resize to 1600x900", "TRUE")));
    assert!(!f.matches(&event("SetWindowPos", "Moved", "TRUE")));
    // the query also matches the API name
    f.text_query = "setwindow".to_string();
    assert!(f.matches(&event("SetWindowPos", "x", "TRUE")));
}

#[test]
fn sort_toggling() {
    let mut f = EventFilters {
        text_query: String::new(),
        api_scope: ApiScope::All,
        sort: EventSort { column: EventSortColumn::Time, descending: false },
    };
    f.toggle_sort(EventSortColumn::Time);
    assert_eq!(f.sort.column, EventSortColumn::Time);
    assert!(f.sort.descending);
    f.toggle_sort(EventSortColumn::Api);
    assert_eq!(f.sort.column, EventSortColumn::Api);
    assert!(!f.sort.descending);
    f.toggle_sort(EventSortColumn::Api);
    assert!(f.sort.descending);
}

#[test]
fn loaded_dlls_track_origins() {
    let mut dlls = LoadedDlls::new();
    // only library-load events count
    dlls.observe_event(&event("SetWindowPos", "x", "TRUE"));
    assert_eq!(dlls.len(), 0);

    let load = Event::new(
        100,
        "DllLoad",
        "LoadLibraryW module=0x1",
        "pid:1 thread:2",
        2,
        " C:\\Windows\\System32\\ddraw.dll ",
    );
    dlls.observe_event(&load);
    assert_eq!(dlls.len(), 1);
    {
        let rows = dlls.values();
        assert_eq!(rows[0].name, "ddraw.dll");
        assert_eq!(rows[0].path, "C:\\Windows\\System32\\ddraw.dll");
        assert_eq!(rows[0].count, 1);
        assert_eq!(rows[0].first_seen_ms, 100);
        assert_eq!(rows[0].last_seen_ms, 100);
    }

    // the same origin again: the row updates instead of duplicating
    let again = Event::new(
        250,
        "DllLoad",
        "LoadLibraryA module=0x1",
        "pid:1 thread:3",
        3,
        "C:\\Windows\\System32\\ddraw.dll",
    );
    dlls.observe_event(&again);
    assert_eq!(dlls.len(), 1);
    {
        let rows = dlls.values();
        assert_eq!(rows[0].count, 2);
        assert_eq!(rows[0].first_seen_ms, 100);
        assert_eq!(rows[0].last_seen_ms, 250);
        assert_eq!(rows[0].last_summary, "LoadLibraryA module=0x1");
    }

    // a failed load keys by the summary and shows an unknown name
    let failed = Event::new(300, "DllLoad", "LoadLibraryW module=0x0", "c", 3, "(failed)");
    dlls.observe_event(&failed);
    assert_eq!(dlls.len(), 2);
    let rows = dlls.values();
    assert_eq!(rows[1].name, "<unknown>");
    assert_eq!(rows[1].count, 1);
}

#[test]
fn basename_takes_the_last_component() {
    assert_eq!(basename("C:\\a\\b\\ddraw.dll"), "ddraw.dll");
    assert_eq!(basename("a/b/c.so"), "c.so");
    assert_eq!(basename("plain.dll"), "plain.dll");
    assert_eq!(basename("dir\\"), "");
    assert_eq!(basename(""), "");
}

#[test]
fn smoke_test_event_names_the_frame_adjustment_api() {
    let e = smoke_test_event(0x00CF0000, 0, 0, 1, 77, 10, 20);
    assert_eq!(e.api, "AdjustWindowRectEx");
    assert_eq!(e.summary, "style=0x00CF0000 ex=0x00000000 has_menu=0");
    assert_eq!(e.result, "TRUE");
    assert_eq!(e.caller, "pid:10 thread:20");
    assert_eq!(e.timestamp_ms, 77);
}
