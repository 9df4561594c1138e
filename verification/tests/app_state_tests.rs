use win_api_trace::app_state::{
    attach_plan, sort_process_entries, AttachPlan, LeftPanelAction, ProcessEntry, WinApiTraceApp,
};
use win_api_trace::event::Event;
use win_api_trace::filters::{ApiScope, EventSortColumn};

fn entry(name: &str, pid: u32) -> ProcessEntry {
    ProcessEntry { pid, name: name.to_string() }
}

#[test]
fn processes_sort_by_name_then_pid() {
    let sorted = sort_process_entries(vec![
        entry("notepad.exe", 9),
        entry("game.exe", 40),
        entry("game.exe", 4),
        entry("explorer.exe", 77),
    ]);
    let view: Vec<(String, u32)> = sorted.iter().map(|p| (p.name.clone(), p.pid)).collect();
    assert_eq!(
        view,
        vec![
            ("explorer.exe".to_string(), 77),
            ("game.exe".to_string(), 4),
            ("game.exe".to_string(), 40),
            ("notepad.exe".to_string(), 9),
        ]
    );
}

#[test]
fn refresh_keeps_or_clears_the_selection() {
    let mut app = WinApiTraceApp::new();
    app.selected_process = Some(1);
    app.refresh_process_list(Ok(vec![entry("a.exe", 1), entry("b.exe", 2)]));
    assert_eq!(app.selected_process, Some(1));
    app.refresh_process_list(Ok(vec![entry("a.exe", 1)]));
    assert_eq!(app.selected_process, None);

    app.refresh_process_list(Err("CreateToolhelp32Snapshot failed".to_string()));
    assert_eq!(
        app.attach_status,
        "Process list refresh failed: CreateToolhelp32Snapshot failed"
    );
}

#[test]
fn draining_appends_events_and_feeds_the_module_table() {
    let mut app = WinApiTraceApp::new();
    let load = Event::new(5, "DllLoad", "s", "c", 1, "C:\\x\\d3d9.dll");
    let call = Event::new(6, "MoveWindow", "m", "c", 1, "TRUE");
    app.drain_live_events(vec![load, call]);
    assert_eq!(app.events.len(), 2);
    assert_eq!(app.events[1].api, "MoveWindow");
    assert_eq!(app.dlls.len(), 1);
}

#[test]
fn visible_indices_hide_library_loads_and_sort() {
    let mut app = WinApiTraceApp::new();
    app.filters.api_scope = ApiScope::All;
    app.drain_live_events(vec![
        Event::new(300, "SetWindowPos", "b", "c2", 1, "TRUE"),
        Event::new(100, "DllLoad", "load", "c", 1, "C:\\a.dll"),
        Event::new(200, "CreateWindowExW", "a", "c1", 1, "HWND=1"),
    ]);

    // time ascending: the library load never appears
    let v = app.visible_event_indices();
    assert_eq!(v, vec![2, 0]);

    // time descending reverses the view
    app.filters.toggle_sort(EventSortColumn::Time);
    assert_eq!(app.visible_event_indices(), vec![0, 2]);

    // API name ascending
    app.filters.toggle_sort(EventSortColumn::Api);
    assert_eq!(app.visible_event_indices(), vec![2, 0]);

    // a text query narrows the view further
    app.filters.text_query = "setwindow".to_string();
    assert_eq!(app.visible_event_indices(), vec![0]);
}

#[test]
fn equal_keys_keep_log_order() {
    let mut app = WinApiTraceApp::new();
    app.filters.api_scope = ApiScope::All;
    app.drain_live_events(vec![
        Event::new(50, "SetWindowPos", "x", "c", 1, "TRUE"),
        Event::new(50, "SetWindowPos", "y", "c", 1, "TRUE"),
        Event::new(50, "SetWindowPos", "z", "c", 1, "TRUE"),
    ]);
    app.filters.toggle_sort(EventSortColumn::Api);
    assert_eq!(app.visible_event_indices(), vec![0, 1, 2]);
}

#[test]
fn attach_to_self_installs_in_process() {
    assert_eq!(attach_plan(42, 42), AttachPlan::InstallLocalHooks);
    assert_eq!(attach_plan(41, 42), AttachPlan::InjectRemote);
}

#[test]
fn transient_attach_failures_are_retried_after_resume() {
    assert!(WinApiTraceApp::should_retry_attach_after_resume(
        "CreateToolhelp32Snapshot(module) failed for PID 5 (GetLastError=299)."
    ));
    assert!(WinApiTraceApp::should_retry_attach_after_resume(
        "Failed to locate module kernel32.dll in PID 5 (last error=299)."
    ));
    assert!(WinApiTraceApp::should_retry_attach_after_resume("saw ERROR_BAD_LENGTH here"));
    assert!(!WinApiTraceApp::should_retry_attach_after_resume("OpenProcess failed (GetLastError=5)"));
}

#[test]
fn panel_actions_carry_their_payload() {
    let a = LeftPanelAction::Attach(7);
    assert!(matches!(a, LeftPanelAction::Attach(7)));
    assert!(matches!(LeftPanelAction::RefreshProcesses, LeftPanelAction::RefreshProcesses));
    assert!(matches!(LeftPanelAction::LaunchAndAttach, LeftPanelAction::LaunchAndAttach));
}
