use frida_rs::arch::{Architecture, ArchitectureSelector};

#[test]
fn known_identifiers_select_their_architecture() {
    assert_eq!(Architecture::from_name("ia32"), Architecture::Ia32);
    assert_eq!(Architecture::from_name("x64"), Architecture::X64);
    assert_eq!(Architecture::from_name("arm"), Architecture::Arm);
    assert_eq!(Architecture::from_name("arm64"), Architecture::Arm64);
    assert_eq!(Architecture::from_name("mips"), Architecture::Mips);
}

#[test]
fn unknown_identifier_selects_portable() {
    assert_eq!(Architecture::from_name("riscv64"), Architecture::Portable);
    assert_eq!(Architecture::from_name(""), Architecture::Portable);
    assert_eq!(Architecture::from_name("X64"), Architecture::Portable);
    assert_eq!(Architecture::from_name("x64 "), Architecture::Portable);
    assert_eq!(Architecture::from_name("portable"), Architecture::Portable);
}

#[test]
fn layouts_have_their_sizes() {
    assert_eq!(Architecture::Ia32.field_names().len(), 11);
    assert_eq!(Architecture::X64.field_names().len(), 18);
    assert_eq!(Architecture::Arm.field_names().len(), 16);
    assert_eq!(Architecture::Arm64.field_names().len(), 33);
    assert_eq!(Architecture::Mips.field_names().len(), 34);
    assert_eq!(Architecture::Portable.field_names().len(), 2);
    assert_eq!(Architecture::Mips.register_count(), 34);
    assert_eq!(Architecture::Portable.register_count(), 2);
}

#[test]
fn every_layout_starts_with_pc_and_sp() {
    let all = [
        Architecture::Ia32,
        Architecture::X64,
        Architecture::Arm,
        Architecture::Arm64,
        Architecture::Mips,
        Architecture::Portable,
    ];
    for arch in all {
        let names = arch.field_names();
        assert_eq!(names[0], "pc");
        assert_eq!(names[1], "sp");
        assert_eq!(names.len(), arch.register_count());
    }
    assert_eq!(Architecture::Portable.field_names(), vec!["pc", "sp"]);
}

#[test]
fn x64_layout_is_exact() {
    assert_eq!(
        Architecture::X64.field_names(),
        vec![
            "pc", "sp", "rax", "rcx", "rdx", "rbx", "rsp", "rbp", "rsi", "rdi", "r8", "r10",
            "r11", "r12", "r13", "r14", "r15", "rip"
        ]
    );
}

#[test]
fn selector_keeps_the_first_report() {
    let mut selector = ArchitectureSelector::new();
    assert!(selector.needs_query());
    assert_eq!(selector.cached(), None);
    assert_eq!(selector.get_arch(), None);
    assert_eq!(selector.select("arm64"), Architecture::Arm64);
    assert!(!selector.needs_query());
    assert_eq!(selector.select("x64"), Architecture::Arm64);
    assert_eq!(selector.select("riscv64"), Architecture::Arm64);
    assert_eq!(selector.cached(), Some(Architecture::Arm64));
    assert_eq!(selector.get_arch(), Some("arm64"));
}
