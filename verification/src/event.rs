//! The telemetry event record: one immutable entry per observed API
//! call, constructed after the real call returned.

use vstd::prelude::*;
use vstd::string::StringExecFns;
use crate::fmt::{
    bool_result,
    i32_to_dec,
    spec_bool_result,
    spec_dec_digits,
    spec_hex_digits,
    spec_signed_dec,
    u64_to_dec,
    u64_to_hex,
};

verus! {

/// One observed API call: when it happened, what was called, a summary
/// of its inputs, who called, and what came back.
#[derive(Debug, Clone)]
pub struct Event {
    pub timestamp_ms: u64,
    pub api: String,
    pub summary: String,
    pub caller: String,
    pub thread_id: u32,
    pub result: String,
}

impl Event {
    pub fn new(
        timestamp_ms: u64,
        api: &str,
        summary: &str,
        caller: &str,
        thread_id: u32,
        result: &str,
    ) -> (e: Event)
        ensures
            e.timestamp_ms == timestamp_ms,
            e.api@ == api@,
            e.summary@ == summary@,
            e.caller@ == caller@,
            e.thread_id == thread_id,
            e.result@ == result@,
    {
        Event {
            timestamp_ms,
            api: String::from_str(api),
            summary: String::from_str(summary),
            caller: String::from_str(caller),
            thread_id,
            result: String::from_str(result),
        }
    }

    /// Demonstration data for the event table.
    pub fn sample_events() -> (v: Vec<Event>)
        ensures
            v@.len() == 10,
            v@[0].timestamp_ms == 12_100 && v@[0].api@ == "CreateWindowExW"@,
            v@[1].timestamp_ms == 12_420 && v@[1].api@ == "SetWindowPos"@,
            v@[2].timestamp_ms == 12_720 && v@[2].api@ == "SendMessageW"@,
            v@[3].timestamp_ms == 13_050 && v@[3].api@ == "MoveWindow"@,
            v@[4].timestamp_ms == 13_410 && v@[4].api@ == "ChangeDisplaySettingsExW"@,
            v@[5].timestamp_ms == 13_900 && v@[5].api@ == "GetClientRect"@,
            v@[6].timestamp_ms == 14_210 && v@[6].api@ == "AdjustWindowRectEx"@,
            v@[7].timestamp_ms == 14_520 && v@[7].api@ == "ShowWindow"@,
            v@[8].timestamp_ms == 14_880 && v@[8].api@ == "DefWindowProcW"@,
            v@[9].timestamp_ms == 15_130 && v@[9].api@ == "SetWindowPos"@,
            forall|i: int| 0 <= i < 10 ==> (#[trigger] v@[i]).thread_id != 0,
    {
        let mut v: Vec<Event> = Vec::new();
        v.push(
            Event::new(
                12_100,
                "CreateWindowExW",
                "Main window created (1280x720)",
                "game.exe+0x1A20",
                1884,
                "HWND=0x00000000001204F0",
            ),
        );
        v.push(
            Event::new(
                12_420,
                "SetWindowPos",
                "Resize to 1600x900",
                "game.exe+0x21D0",
                1884,
                "TRUE",
            ),
        );
        v.push(
            Event::new(
                12_720,
                "SendMessageW",
                "WM_SIZE dispatched",
                "user32.dll+0xA2B0",
                1884,
                "LRESULT=0",
            ),
        );
        v.push(
            Event::new(13_050, "MoveWindow", "Move to x=100 y=80", "game.exe+0x22AF", 1884, "TRUE"),
        );
        v.push(
            Event::new(
                13_410,
                "ChangeDisplaySettingsExW",
                "Switch display mode to 1920x1080@60",
                "render.dll+0x45E1",
                4120,
                "DISP_CHANGE_SUCCESSFUL",
            ),
        );
        v.push(
            Event::new(
                13_900,
                "GetClientRect",
                "Client rect requested",
                "game.exe+0x1902",
                1884,
                "TRUE",
            ),
        );
        v.push(
            Event::new(
                14_210,
                "AdjustWindowRectEx",
                "Frame recalculated for WS_OVERLAPPEDWINDOW",
                "game.exe+0x2B31",
                1884,
                "TRUE",
            ),
        );
        v.push(
            Event::new(
                14_520,
                "ShowWindow",
                "Window shown with SW_SHOW",
                "game.exe+0x2050",
                1884,
                "TRUE",
            ),
        );
        v.push(
            Event::new(
                14_880,
                "DefWindowProcW",
                "Default handling for WM_DISPLAYCHANGE",
                "user32.dll+0x8430",
                1884,
                "LRESULT=0",
            ),
        );
        v.push(
            Event::new(
                15_130,
                "SetWindowPos",
                "Topmost flag toggled off",
                "game.exe+0x2348",
                1884,
                "TRUE",
            ),
        );
        v
    }
}

/// The caller identity string `pid:<pid> thread:<tid>`.
pub open spec fn spec_caller_text(process_id: int, thread_id: int) -> Seq<char> {
    "pid:"@ + spec_dec_digits(process_id) + " thread:"@ + spec_dec_digits(thread_id)
}

/// Assemble a telemetry event from the completed call's data: the
/// elapsed timestamp, the caller identity of the current process and
/// thread, and the already-rendered summary and result.
pub fn make_event(
    api: &str,
    summary: String,
    result: String,
    timestamp_ms: u64,
    process_id: u32,
    thread_id: u32,
) -> (e: Event)
    ensures
        e.timestamp_ms == timestamp_ms,
        e.api@ == api@,
        e.summary@ == summary@,
        e.caller@ == spec_caller_text(process_id as int, thread_id as int),
        e.thread_id == thread_id,
        e.result@ == result@,
{
    let mut caller = String::from_str("pid:");
    let pid_text = u64_to_dec(process_id as u64);
    caller.append(pid_text.as_str());
    caller.append(" thread:");
    let tid_text = u64_to_dec(thread_id as u64);
    caller.append(tid_text.as_str());
    assert(caller@ =~= spec_caller_text(process_id as int, thread_id as int));
    Event {
        timestamp_ms,
        api: String::from_str(api),
        summary,
        caller,
        thread_id,
        result,
    }
}

/// The summary line of an intercepted frame-adjustment call.
pub open spec fn spec_adjust_rect_summary(style: u32, ex_style: u32, has_menu: int) -> Seq<char> {
    "style=0x"@ + spec_hex_digits(style as int, 8) + " ex=0x"@ + spec_hex_digits(
        ex_style as int,
        8,
    ) + " has_menu="@ + spec_signed_dec(has_menu)
}

pub fn adjust_window_rect_summary(style: u32, ex_style: u32, has_menu: i32) -> (s: String)
    ensures
        s@ == spec_adjust_rect_summary(style, ex_style, has_menu as int),
{
    let mut s = String::from_str("style=0x");
    let h1 = u64_to_hex(style as u64, 8);
    s.append(h1.as_str());
    s.append(" ex=0x");
    let h2 = u64_to_hex(ex_style as u64, 8);
    s.append(h2.as_str());
    s.append(" has_menu=");
    let m = i32_to_dec(has_menu);
    s.append(m.as_str());
    assert(s@ =~= spec_adjust_rect_summary(style, ex_style, has_menu as int));
    s
}

/// The telemetry record of the built-in frame-adjustment smoke-test
/// call, after the real call returned: exactly one such event per
/// smoke test, with the fixed API name.
pub fn smoke_test_event(
    style: u32,
    ex_style: u32,
    has_menu: i32,
    result: i32,
    timestamp_ms: u64,
    process_id: u32,
    thread_id: u32,
) -> (e: Event)
    ensures
        e.api@ == "AdjustWindowRectEx"@,
        e.summary@ == spec_adjust_rect_summary(style, ex_style, has_menu as int),
        e.result@ == spec_bool_result(result),
        e.caller@ == spec_caller_text(process_id as int, thread_id as int),
        e.timestamp_ms == timestamp_ms,
        e.thread_id == thread_id,
{
    let summary = adjust_window_rect_summary(style, ex_style, has_menu);
    let outcome = bool_result(result);
    make_event("AdjustWindowRectEx", summary, outcome, timestamp_ms, process_id, thread_id)
}

} // verus!
