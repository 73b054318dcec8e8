use memory_tool::{
    arch_name, describe_module, eq_ignore_ascii_case, find_module_info, find_process_id,
    is_process_x64, pointer_width, select_arch, select_target, Arch, CreateOptions, MemError,
    ModuleInfo, ProcessInfo, Target,
};

fn process(pid: u32, name: &str) -> ProcessInfo {
    ProcessInfo { pid, name: name.to_string() }
}

#[test]
fn module_lookup_end_to_end() {
    let modules = vec![
        ModuleInfo::new("ntdll.dll".to_string(), 0x7FFA00000000, 0x200000),
        ModuleInfo::new("target.exe".to_string(), 0x7FF600000000, 0x1000),
    ];
    let info = find_module_info(&modules, "target.exe").unwrap();
    assert_eq!(info.start_address, 0x7FF600000000);
    assert_eq!(info.end_address, 0x7FF600001000);
    let module = describe_module("target.exe".to_string(), &info);
    assert_eq!(module.name, "target.exe");
    assert_eq!(module.base_address, 0x7FF600000000);
    assert_eq!(module.size, 0x1000);
    assert_eq!(module.end_address, 0x7FF600001000);
}

#[test]
fn module_lookup_ignores_ascii_case_and_misses() {
    let modules = vec![ModuleInfo::new("KERNEL32.DLL".to_string(), 0x10000, 0x30)];
    let info = find_module_info(&modules, "kernel32.dll").unwrap();
    assert_eq!(info.end_address, 0x10030);
    assert!(find_module_info(&modules, "user32.dll").is_none());
    assert!(find_module_info(&vec![], "user32.dll").is_none());
}

#[test]
fn process_lookup_takes_first_match() {
    let processes = vec![process(4, "System"), process(100, "Game.exe"), process(200, "game.EXE")];
    assert_eq!(find_process_id(&processes, "game.exe"), Some(100));
    assert_eq!(find_process_id(&processes, "system"), Some(4));
    assert_eq!(find_process_id(&processes, "other.exe"), None);
    assert_eq!(find_process_id(&processes, "game.ex"), None);
}

#[test]
fn ascii_case_comparison() {
    assert!(eq_ignore_ascii_case("Notepad.EXE", "notepad.exe"));
    assert!(!eq_ignore_ascii_case("notepad.exe", "notepad.ex"));
    assert!(!eq_ignore_ascii_case("É", "é"));
    assert!(eq_ignore_ascii_case("", ""));
}

#[test]
fn target_selection() {
    let by_name = CreateOptions {
        process_name: Some("game.exe".to_string()),
        pid: Some(7),
        arch_x64: None,
        debug: None,
    };
    match select_target(&by_name) {
        Ok(Target::Name(n)) => assert_eq!(n, "game.exe"),
        _ => panic!("expected a name"),
    }
    let by_pid = CreateOptions { process_name: None, pid: Some(7), arch_x64: None, debug: None };
    assert!(matches!(select_target(&by_pid), Ok(Target::Pid(7))));
    let none = CreateOptions { process_name: None, pid: None, arch_x64: Some(true), debug: None };
    assert!(matches!(select_target(&none), Err(MemError::MissingTarget)));
}

#[test]
fn architecture_selection() {
    assert_eq!(select_arch(Some(true), Some(false)), Arch::X64);
    assert_eq!(select_arch(Some(false), Some(true)), Arch::X86);
    assert_eq!(select_arch(None, Some(false)), Arch::X86);
    assert_eq!(select_arch(None, Some(true)), Arch::X64);
    assert_eq!(select_arch(None, None), Arch::X64);
}

#[test]
fn process_bitness() {
    assert_eq!(is_process_x64(false, None), Some(false));
    assert_eq!(is_process_x64(true, Some(true)), Some(false));
    assert_eq!(is_process_x64(true, Some(false)), Some(true));
    assert_eq!(is_process_x64(true, None), None);
}

#[test]
fn architecture_names_and_widths() {
    assert_eq!(arch_name(Arch::X64), "x64");
    assert_eq!(arch_name(Arch::X86), "x86");
    assert_eq!(pointer_width(Arch::X64), 8);
    assert_eq!(pointer_width(Arch::X86), 4);
}
