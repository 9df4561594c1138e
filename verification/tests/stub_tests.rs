use win_api_trace::guid::{
    clsid_directdraw, clsid_directdraw7, co_create_is_directdraw_request, guid_matches,
    iid_idirectdraw, iid_idirectdraw2, iid_idirectdraw4, iid_idirectdraw7, is_directdraw_clsid,
    is_directdraw_interface_iid, multi_qi_install_indices, multi_qi_requests_directdraw, Guid,
    MultiQiView,
};
use win_api_trace::hooks::{HookManager, HookPlanEntry};
use win_api_trace::memory::{AddressSpace, MemRegion};
use win_api_trace::stub::{make_liveness_stub, plan_vtable_patch, LivenessFlag};

#[test]
fn liveness_stub_bytes_are_exact() {
    let code = make_liveness_stub(1, 2, 0x1122_3344, 0x5566_7788, 0x2000, 0x1000).unwrap();
    assert_eq!(code.len(), 47);
    // cmp byte ptr [flag], 0
    assert_eq!(&code[0..7], &[0x80, 0x3D, 0x88, 0x77, 0x66, 0x55, 0x00]);
    // jne +31 to the tail jump
    assert_eq!(&code[7..9], &[0x75, 31]);
    // pushfd; pushad
    assert_eq!(&code[9..11], &[0x9C, 0x60]);
    // push target; push index; push kind (right to left)
    assert_eq!(&code[11..16], &[0x68, 0x44, 0x33, 0x22, 0x11]);
    assert_eq!(&code[16..21], &[0x68, 2, 0, 0, 0]);
    assert_eq!(&code[21..26], &[0x68, 1, 0, 0, 0]);
    // call rel32: 0x2000 - (0x1000 + 31) = 0x0FE1
    assert_eq!(&code[26..31], &[0xE8, 0xE1, 0x0F, 0x00, 0x00]);
    // popad; popfd; set the flag
    assert_eq!(&code[31..33], &[0x61, 0x9D]);
    assert_eq!(&code[33..40], &[0xC6, 0x05, 0x88, 0x77, 0x66, 0x55, 0x01]);
    // tail: mov eax, target; jmp eax
    assert_eq!(&code[40..47], &[0xB8, 0x44, 0x33, 0x22, 0x11, 0xFF, 0xE0]);
}

#[test]
fn liveness_stub_backward_call_and_range_limit() {
    // the logger below the stub encodes a negative displacement
    let code = make_liveness_stub(2, 0, 0, 0, 0x1000, 0x2000).unwrap();
    // 0x1000 - (0x2000 + 31) = -0x101F -> 0xFFFFEFE1 two's complement
    assert_eq!(&code[26..31], &[0xE8, 0xE1, 0xEF, 0xFF, 0xFF]);

    // a logger farther than a 32-bit displacement is rejected
    assert!(make_liveness_stub(1, 0, 0, 0, 0x9000_0000, 0).is_none());
}

#[test]
fn liveness_flag_fires_exactly_once() {
    let mut flag = LivenessFlag::new();
    assert!(flag.try_claim());
    assert!(!flag.try_claim());
    assert!(!flag.try_claim());
}

#[test]
fn vtable_patch_plan_replaces_only_runtime_code() {
    let mem = AddressSpace {
        regions: vec![
            // the instance, pointing at its vtable
            MemRegion {
                base: 10,
                words: vec![100],
                committed: true,
                no_access: false,
                guard: false,
                executable: false,
                allocation_base: 10,
            },
            // the vtable: runtime code, null, foreign code, runtime data
            MemRegion {
                base: 100,
                words: vec![5000, 0, 6000, 5004],
                committed: true,
                no_access: false,
                guard: false,
                executable: false,
                allocation_base: 100,
            },
            // the graphics runtime's executable pages, except one data word
            MemRegion {
                base: 5000,
                words: vec![0; 4],
                committed: true,
                no_access: false,
                guard: false,
                executable: true,
                allocation_base: 5000,
            },
            MemRegion {
                base: 5004,
                words: vec![0],
                committed: true,
                no_access: false,
                guard: false,
                executable: false,
                allocation_base: 5000,
            },
            // executable code outside any recognized runtime module
            MemRegion {
                base: 6000,
                words: vec![0],
                committed: true,
                no_access: false,
                guard: false,
                executable: true,
                allocation_base: 6000,
            },
        ],
    };
    let runtime = [5000u64];
    let plan = plan_vtable_patch(&mem, 10, 4, &runtime, false, false).unwrap();
    assert_eq!(plan, vec![true, false, false, false]);

    // nothing is planned once first use was reported or the instance patched
    assert!(plan_vtable_patch(&mem, 10, 4, &runtime, false, true).is_none());
    assert!(plan_vtable_patch(&mem, 10, 4, &runtime, true, false).is_none());
    // an unreadable instance or vtable is skipped whole
    assert!(plan_vtable_patch(&mem, 77, 4, &runtime, false, false).is_none());
    assert!(plan_vtable_patch(&mem, 10, 400, &runtime, false, false).is_none());
}

#[test]
fn startup_hook_plan() {
    let entries = vec![
        HookPlanEntry { api: "CreateWindowExW".to_string(), resolved: true, required: true },
        HookPlanEntry { api: "DirectDrawCreate".to_string(), resolved: false, required: false },
        HookPlanEntry { api: "Direct3DCreate9".to_string(), resolved: true, required: false },
    ];
    let mut mgr = HookManager::new();
    let plan = mgr.install(&entries).unwrap();
    assert_eq!(plan, vec![0, 2]);
    assert!(mgr.installed);
    // a second pass is a no-op
    assert_eq!(mgr.install(&entries).unwrap(), Vec::<usize>::new());

    // a required entry point that did not resolve fails the pass by index
    let mut mgr = HookManager::new();
    let broken = vec![
        HookPlanEntry { api: "CreateWindowExW".to_string(), resolved: true, required: true },
        HookPlanEntry { api: "SetWindowPos".to_string(), resolved: false, required: true },
    ];
    assert_eq!(mgr.install(&broken), Err(1));
    assert!(!mgr.installed);
}

#[test]
fn interface_identifier_tests() {
    let a = iid_idirectdraw();
    let b = iid_idirectdraw2();
    assert!(guid_matches(&a, &iid_idirectdraw()));
    assert!(!guid_matches(&a, &b));
    assert!(is_directdraw_interface_iid(&iid_idirectdraw()));
    assert!(is_directdraw_interface_iid(&iid_idirectdraw2()));
    assert!(is_directdraw_interface_iid(&iid_idirectdraw4()));
    assert!(is_directdraw_interface_iid(&iid_idirectdraw7()));
    // a class identifier is not an interface identifier
    assert!(!is_directdraw_interface_iid(&clsid_directdraw()));
    let mut tweaked: Guid = iid_idirectdraw();
    tweaked.data4[7] ^= 1;
    assert!(!is_directdraw_interface_iid(&tweaked));
}

#[test]
fn instance_creation_requests_are_classified() {
    assert!(is_directdraw_clsid(&clsid_directdraw()));
    assert!(is_directdraw_clsid(&clsid_directdraw7()));
    assert!(!is_directdraw_clsid(&iid_idirectdraw()));

    // by class, by interface, or not at all; unreadable identifiers never match
    assert!(co_create_is_directdraw_request(Some(clsid_directdraw()), None));
    assert!(co_create_is_directdraw_request(None, Some(iid_idirectdraw7())));
    assert!(!co_create_is_directdraw_request(Some(iid_idirectdraw()), Some(clsid_directdraw())));
    assert!(!co_create_is_directdraw_request(None, None));
}

#[test]
fn multi_interface_results_feed_only_usable_rows() {
    let rows = vec![
        MultiQiView { iid: Some(iid_idirectdraw()), hr: 0, out_null: false },
        MultiQiView { iid: Some(iid_idirectdraw2()), hr: -1, out_null: false },
        MultiQiView { iid: Some(clsid_directdraw()), hr: 0, out_null: false },
        MultiQiView { iid: None, hr: 0, out_null: false },
        MultiQiView { iid: Some(iid_idirectdraw7()), hr: 0, out_null: true },
        MultiQiView { iid: Some(iid_idirectdraw4()), hr: 1, out_null: false },
    ];
    assert!(multi_qi_requests_directdraw(&rows));
    assert_eq!(multi_qi_install_indices(&rows), vec![0, 5]);

    let none = vec![MultiQiView { iid: Some(clsid_directdraw()), hr: 0, out_null: false }];
    assert!(!multi_qi_requests_directdraw(&none));
    assert_eq!(multi_qi_install_indices(&none), Vec::<usize>::new());
}
