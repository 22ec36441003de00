use lib::dlfcn::{
    dlclose, dlopen, dlsym_begin, dlsym_noop, dlsym_should_use_noop_stub, dlsym_step,
    dlsym_symbol_name, is_known_library, is_valid_handle, DlsymStage, DlsymStep, Dylib, NULL,
    RTLD_DEFAULT,
};

fn libraries() -> Vec<Dylib> {
    vec![
        Dylib {
            path: String::from("/usr/lib/libSystem.B.dylib"),
            aliases: vec![String::from("/usr/lib/libSystem.dylib"), String::from("/usr/lib/libc.dylib")],
        },
        Dylib {
            path: String::from("/System/Library/Frameworks/UIKit.framework/UIKit"),
            aliases: vec![],
        },
    ]
}

/// Runs `dlsym()` to the end against a table of the names the linker
/// knows, counting the lookups.
fn run_dlsym(symbol: &str, known: &[(&str, u32)]) -> (u32, usize) {
    let libs = libraries();
    let full = dlsym_symbol_name(symbol);
    let mut step = dlsym_begin(RTLD_DEFAULT, None, &libs, symbol);
    let mut lookups = 0;
    loop {
        match step {
            DlsymStep::Done(addr) => return (addr, lookups),
            DlsymStep::Lookup(stage, name) => {
                lookups += 1;
                let found = known.iter().find(|(n, _)| *n == name).map(|(_, a)| *a);
                step = dlsym_step(&full, stage, found);
            }
        }
    }
}

#[test]
fn known_library_by_path_and_alias() {
    let libs = libraries();
    assert!(is_known_library("/usr/lib/libSystem.B.dylib", &libs));
    assert!(is_known_library("/usr/lib/libc.dylib", &libs));
    assert!(is_known_library("/System/Library/Frameworks/UIKit.framework/UIKit", &libs));
    assert!(!is_known_library("/usr/lib/libfoo.dylib", &libs));
    assert!(!is_known_library("", &libs));
    assert!(!is_known_library("/usr/lib/libc.dylib", &[]));
}

#[test]
fn valid_handles() {
    let libs = libraries();
    assert!(is_valid_handle(RTLD_DEFAULT, None, &libs));
    assert!(is_valid_handle(0x4000, Some("/usr/lib/libSystem.dylib"), &libs));
    assert!(!is_valid_handle(0x4000, Some("/usr/lib/libfoo.dylib"), &libs));
    assert!(!is_valid_handle(0x4000, None, &libs));
}

#[test]
fn dlopen_null_is_default_handle() {
    let libs = libraries();
    assert_eq!(dlopen(NULL, None, &libs, 0), RTLD_DEFAULT);
    assert_eq!(RTLD_DEFAULT, 0xffff_fffe);
}

#[test]
fn dlopen_uses_path_as_handle() {
    let libs = libraries();
    assert_eq!(dlopen(0x5000, Some("/usr/lib/libSystem.B.dylib"), &libs, 2), 0x5000);
}

#[test]
fn dlclose_succeeds() {
    let libs = libraries();
    assert_eq!(dlclose(RTLD_DEFAULT, None, &libs), 0);
    assert_eq!(dlclose(0x5000, Some("/usr/lib/libc.dylib"), &libs), 0);
    dlsym_noop();
}

#[test]
fn symbol_gets_leading_underscore() {
    assert_eq!(dlsym_symbol_name("malloc"), "_malloc");
    assert_eq!(dlsym_symbol_name(""), "_");
    match dlsym_begin(RTLD_DEFAULT, None, &libraries(), "free") {
        DlsymStep::Lookup(DlsymStage::Symbol, name) => assert_eq!(name, "_free"),
        other => panic!("unexpected {:?}", other),
    }
}

#[test]
fn noop_stub_symbols() {
    assert!(dlsym_should_use_noop_stub("_appLaunchedShowRatingDialogIfNeededNative"));
    assert!(dlsym_should_use_noop_stub("_ShowRatingDialog"));
    assert!(dlsym_should_use_noop_stub("_unityShowRatingDialogNow"));
    assert!(!dlsym_should_use_noop_stub("_showRatingDialog"));
    assert!(!dlsym_should_use_noop_stub("_malloc"));
}

#[test]
fn found_symbol_is_returned() {
    match dlsym_step("_malloc", DlsymStage::Symbol, Some(0x1001)) {
        DlsymStep::Done(a) => assert_eq!(a, 0x1001),
        other => panic!("unexpected {:?}", other),
    }
    match dlsym_step("_x", DlsymStage::NoopStub, Some(0x2001)) {
        DlsymStep::Done(a) => assert_eq!(a, 0x2001),
        other => panic!("unexpected {:?}", other),
    }
}

#[test]
fn missing_plain_symbol_is_null() {
    match dlsym_step("_missing", DlsymStage::Symbol, None) {
        DlsymStep::Done(a) => assert_eq!(a, NULL),
        other => panic!("unexpected {:?}", other),
    }
    assert_eq!(run_dlsym("missing", &[]), (0, 1));
}

#[test]
fn missing_kb_symbol_looks_up_stub() {
    match dlsym_step("_KBGetText", DlsymStage::Symbol, None) {
        DlsymStep::Lookup(DlsymStage::KbStub, name) => assert_eq!(name, "_KBGetInputText"),
        other => panic!("unexpected {:?}", other),
    }
    assert_eq!(run_dlsym("KBGetText", &[("_KBGetInputText", 0x3001)]), (0x3001, 2));
}

#[test]
fn missing_kb_stub_falls_to_null_or_noop() {
    assert_eq!(run_dlsym("KBGetText", &[]), (0, 2));
    assert_eq!(run_dlsym("KBShowRatingDialog", &[("_dlsym_noop", 0x4001)]), (0x4001, 3));
    match dlsym_step("_KBShowRatingDialog", DlsymStage::KbStub, None) {
        DlsymStep::Lookup(DlsymStage::NoopStub, name) => assert_eq!(name, "_dlsym_noop"),
        other => panic!("unexpected {:?}", other),
    }
}

#[test]
fn rating_hooks_get_noop_stub() {
    assert_eq!(
        run_dlsym("appLaunchedShowRatingDialogIfNeededNative", &[("_dlsym_noop", 0x4001)]),
        (0x4001, 2)
    );
    assert_eq!(run_dlsym("appLaunchedShowRatingDialogIfNeededNative", &[]), (0, 2));
    match dlsym_step("_x", DlsymStage::NoopStub, None) {
        DlsymStep::Done(a) => assert_eq!(a, NULL),
        other => panic!("unexpected {:?}", other),
    }
}

#[test]
fn existing_symbol_takes_one_lookup() {
    assert_eq!(run_dlsym("malloc", &[("_malloc", 0x8001)]), (0x8001, 1));
    assert_eq!(run_dlsym("KBShow", &[("_KBShow", 0x9001)]), (0x9001, 1));
}
