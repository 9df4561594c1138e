//! Event filtering and sorting state of the event table: which API
//! families are shown, the free-text query, and the sort order.

use vstd::prelude::*;
use vstd::string::StringSliceAdditionalSpecFns;
use vstd::utf8::encode_utf8;
use crate::ascii::spec_contains_ci;
use crate::bytes::compare_bytes;
use crate::event::Event;
use crate::text::{contains_str, spec_occurs, spec_starts_with, spec_trim, starts_with, trim_spaces};
use crate::ascii::contains_ignore_ascii_case;

verus! {

/// Which API families the event table shows.
#[derive(Debug, Clone, Copy, PartialEq, Eq, Structural)]
pub enum ApiScope {
    All,
    WindowDisplayAndGraphics,
    DirectDrawCallsOnly,
}

impl Default for ApiScope {
    fn default() -> (r: Self)
        ensures
            r == ApiScope::All,
    {
        ApiScope::All
    }
}

/// The sortable columns of the event table.
#[derive(Debug, Clone, Copy, PartialEq, Eq, Structural)]
pub enum EventSortColumn {
    Time,
    Api,
    Caller,
}

/// The active sort: a column and a direction.
#[derive(Debug, Clone, Copy, PartialEq, Eq, Structural)]
pub struct EventSort {
    pub column: EventSortColumn,
    pub descending: bool,
}

impl Default for EventSort {
    fn default() -> (r: Self)
        ensures
            r == (EventSort { column: EventSortColumn::Time, descending: false }),
    {
        EventSort { column: EventSortColumn::Time, descending: false }
    }
}

/// The whole filter state of the event table.
#[derive(Debug)]
pub struct EventFilters {
    pub text_query: String,
    pub api_scope: ApiScope,
    pub sort: EventSort,
}

impl Default for EventFilters {
    fn default() -> (r: Self)
        ensures
            r.text_query@.len() == 0,
            r.api_scope == ApiScope::DirectDrawCallsOnly,
            r.sort == (EventSort { column: EventSortColumn::Time, descending: false }),
    {
        EventFilters {
            text_query: String::new(),
            api_scope: ApiScope::DirectDrawCallsOnly,
            sort: EventSort { column: EventSortColumn::Time, descending: false },
        }
    }
}

/// The five window and display-mode entry points.
pub open spec fn spec_is_window_display_api(api: Seq<u8>) -> bool {
    ||| api == "CreateWindowExW".spec_bytes()
    ||| api == "SetWindowPos".spec_bytes()
    ||| api == "MoveWindow".spec_bytes()
    ||| api == "ChangeDisplaySettingsExW".spec_bytes()
    ||| api == "AdjustWindowRectEx".spec_bytes()
}

/// The non-DirectDraw graphics entry points, plus the two hook
/// bookkeeping events that help troubleshoot hook setup.
pub open spec fn spec_is_other_graphics_api(api: Seq<u8>) -> bool {
    ||| api == "Direct3DCreate9".spec_bytes()
    ||| api == "Direct3DCreate9Ex".spec_bytes()
    ||| api == "CreateDXGIFactory".spec_bytes()
    ||| api == "CreateDXGIFactory1".spec_bytes()
    ||| api == "D3D11CreateDevice".spec_bytes()
    ||| api == "D3D11CreateDeviceAndSwapChain".spec_bytes()
    ||| api == "DirectDrawHookStatus".spec_bytes()
    ||| api == "DirectDrawHookInstall".spec_bytes()
}

/// Every DirectDraw-family event, by prefix so that new interface
/// methods fall under the filter without listing them.
pub open spec fn spec_is_directdraw_api(api: Seq<u8>) -> bool {
    ||| (spec_starts_with(api, "CoCreateInstance".spec_bytes()) && spec_occurs(
        api,
        "DirectDraw".spec_bytes(),
    ))
    ||| spec_starts_with(api, "DirectDraw".spec_bytes())
    ||| spec_starts_with(api, "IDirectDraw".spec_bytes())
}

/// DirectDraw-family events that are real intercepted calls: the two
/// bookkeeping events are excluded.
pub open spec fn spec_is_directdraw_call_api(api: Seq<u8>) -> bool {
    &&& api != "DirectDrawHookStatus".spec_bytes()
    &&& api != "DirectDrawHookInstall".spec_bytes()
    &&& spec_is_directdraw_api(api)
}

pub open spec fn spec_is_window_display_or_graphics_api(api: Seq<u8>) -> bool {
    spec_is_window_display_api(api) || spec_is_other_graphics_api(api) || spec_is_directdraw_api(
        api,
    )
}

fn str_eq_bytes(a: &str, b: &str) -> (r: bool)
    ensures
        r == (a.spec_bytes() == b.spec_bytes()),
{
    compare_bytes(a.as_bytes(), b.as_bytes())
}

pub fn is_window_display_api(api: &str) -> (r: bool)
    ensures
        r == spec_is_window_display_api(api.spec_bytes()),
{
    str_eq_bytes(api, "CreateWindowExW") || str_eq_bytes(api, "SetWindowPos") || str_eq_bytes(
        api,
        "MoveWindow",
    ) || str_eq_bytes(api, "ChangeDisplaySettingsExW") || str_eq_bytes(api, "AdjustWindowRectEx")
}

pub fn is_other_graphics_api(api: &str) -> (r: bool)
    ensures
        r == spec_is_other_graphics_api(api.spec_bytes()),
{
    str_eq_bytes(api, "Direct3DCreate9") || str_eq_bytes(api, "Direct3DCreate9Ex") || str_eq_bytes(
        api,
        "CreateDXGIFactory",
    ) || str_eq_bytes(api, "CreateDXGIFactory1") || str_eq_bytes(api, "D3D11CreateDevice")
        || str_eq_bytes(api, "D3D11CreateDeviceAndSwapChain") || str_eq_bytes(
        api,
        "DirectDrawHookStatus",
    ) || str_eq_bytes(api, "DirectDrawHookInstall")
}

pub fn is_directdraw_api(api: &str) -> (r: bool)
    ensures
        r == spec_is_directdraw_api(api.spec_bytes()),
{
    (starts_with(api, "CoCreateInstance") && contains_str(api, "DirectDraw")) || starts_with(
        api,
        "DirectDraw",
    ) || starts_with(api, "IDirectDraw")
}

pub fn is_directdraw_call_api(api: &str) -> (r: bool)
    ensures
        r == spec_is_directdraw_call_api(api.spec_bytes()),
{
    if str_eq_bytes(api, "DirectDrawHookStatus") || str_eq_bytes(api, "DirectDrawHookInstall") {
        return false;
    }
    is_directdraw_api(api)
}

pub fn is_window_display_or_graphics_api(api: &str) -> (r: bool)
    ensures
        r == spec_is_window_display_or_graphics_api(api.spec_bytes()),
{
    is_window_display_api(api) || is_other_graphics_api(api) || is_directdraw_api(api)
}

/// Whether the filters show this event: the scope must admit its API,
/// and the trimmed free-text query, when present, must occur in the API
/// name or the summary, ignoring ASCII case.
pub open spec fn spec_matches(f: EventFilters, e: Event) -> bool {
    let api_bytes = encode_utf8(e.api@);
    let scope_ok = match f.api_scope {
        ApiScope::All => true,
        ApiScope::WindowDisplayAndGraphics => spec_is_window_display_or_graphics_api(api_bytes),
        ApiScope::DirectDrawCallsOnly => spec_is_directdraw_call_api(api_bytes),
    };
    let q = encode_utf8(spec_trim(f.text_query@));
    &&& scope_ok
    &&& (spec_trim(f.text_query@).len() == 0 || spec_contains_ci(api_bytes, q) || spec_contains_ci(
        encode_utf8(e.summary@),
        q,
    ))
}

impl EventFilters {
    pub fn matches(&self, event: &Event) -> (r: bool)
        ensures
            r == spec_matches(*self, *event),
    {
        let scope_ok = match self.api_scope {
            ApiScope::All => true,
            ApiScope::WindowDisplayAndGraphics => is_window_display_or_graphics_api(
                event.api.as_str(),
            ),
            ApiScope::DirectDrawCallsOnly => is_directdraw_call_api(event.api.as_str()),
        };
        if !scope_ok {
            return false;
        }
        let query = trim_spaces(self.text_query.as_str());
        if query.is_empty() {
            return true;
        }
        contains_ignore_ascii_case(event.api.as_str(), query) || contains_ignore_ascii_case(
            event.summary.as_str(),
            query,
        )
    }

    /// Clicking a sort column: the same column flips the direction; a
    /// different column becomes the sort, ascending.
    pub fn toggle_sort(&mut self, column: EventSortColumn)
        ensures
            old(self).sort.column == column ==> final(self).sort == (EventSort {
                column,
                descending: !old(self).sort.descending,
            }),
            old(self).sort.column != column ==> final(self).sort == (EventSort {
                column,
                descending: false,
            }),
            final(self).text_query == old(self).text_query,
            final(self).api_scope == old(self).api_scope,
    {
        if self.sort.column == column {
            self.sort.descending = !self.sort.descending;
        } else {
            self.sort.column = column;
            self.sort.descending = false;
        }
    }
}

} // verus!
