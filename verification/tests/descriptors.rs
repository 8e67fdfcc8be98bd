use frida_rs::apiresolver::{ApiResolver, Type};
use frida_rs::debugsymbol::{find_functions, find_matching_functions, DebugSymbol};
use frida_rs::error::HostError;
use frida_rs::fromsys::FromSys;
use frida_rs::handle::ForeignHandle;
use frida_rs::module::{
    get_base_address, get_export, ExportDetails, ImportDetails, Module, SymbolDetails,
    SymbolSectionDetails,
};
use frida_rs::modulemap::ModuleMap;
use frida_rs::nativepointer::NativePointer;
use frida_rs::range::{FileMapping, RangeDetails};
use frida_rs::sys;

fn handle(token: u64) -> ForeignHandle {
    ForeignHandle::from_token(token)
}

fn pointer(token: u64) -> NativePointer {
    NativePointer(ForeignHandle::from_token(token))
}

fn raw_module(token: u64, name: &str) -> sys::Module {
    sys::Module {
        handle: handle(token),
        name: name.to_string(),
        base: handle(token + 1),
        size: 4096,
        path: format!("/usr/lib/{}", name),
    }
}

fn raw_range(token: u64, with_file: bool) -> sys::RangeDetails {
    sys::RangeDetails {
        handle: handle(token),
        base: handle(token + 1),
        size: 8192,
        protection: "r-x".to_string(),
        file: if with_file {
            Some(sys::FileMapping { path: "/bin/cat".to_string(), offset: 16, size: 32 })
        } else {
            None
        },
    }
}

#[test]
fn module_is_decoded_and_given_back() {
    let raw = raw_module(50, "libc.so");
    let module = Module::from_sys(raw.clone());
    assert_eq!(module.name, "libc.so");
    assert_eq!(module.base, pointer(51));
    assert_eq!(module.size, 4096);
    assert_eq!(module.path, "/usr/lib/libc.so");
    assert_eq!(module.to_sys(), handle(50));
    assert_eq!(module.into_sys(), raw);
}

#[test]
fn base_address_is_none_for_null() {
    assert_eq!(get_base_address(ForeignHandle::null()), None);
    assert_eq!(get_base_address(handle(9)), Some(pointer(9)));
    assert_eq!(
        get_base_address(ForeignHandle::undefined()),
        Some(NativePointer(ForeignHandle::undefined()))
    );
    assert_eq!(get_export(ForeignHandle::null()), None);
    assert_eq!(get_export(handle(12)), Some(pointer(12)));
}

#[test]
fn exports_are_decoded_in_order() {
    let module = Module::from_sys(raw_module(50, "libc.so"));
    let reply = vec![
        sys::ExportDetails {
            export_type: "function".to_string(),
            name: "open".to_string(),
            address: handle(60),
        },
        sys::ExportDetails {
            export_type: "variable".to_string(),
            name: "errno".to_string(),
            address: handle(61),
        },
    ];
    assert_eq!(
        module.enumerate_exports(reply),
        vec![
            ExportDetails {
                export_type: "function".to_string(),
                name: "open".to_string(),
                address: pointer(60),
            },
            ExportDetails {
                export_type: "variable".to_string(),
                name: "errno".to_string(),
                address: pointer(61),
            },
        ]
    );
    assert_eq!(module.enumerate_exports(Vec::new()), Vec::new());
}

#[test]
fn imports_are_decoded_in_order() {
    let module = Module::from_sys(raw_module(50, "libc.so"));
    let reply = vec![
        sys::ImportDetails {
            import_type: Some("function".to_string()),
            name: "malloc".to_string(),
            module: Some("libc.so".to_string()),
            address: Some(handle(70)),
            slot: None,
        },
        sys::ImportDetails {
            import_type: None,
            name: "free".to_string(),
            module: None,
            address: None,
            slot: Some(handle(71)),
        },
    ];
    assert_eq!(
        module.enumerate_imports(reply),
        vec![
            ImportDetails {
                import_type: Some("function".to_string()),
                name: "malloc".to_string(),
                module: Some("libc.so".to_string()),
                address: Some(pointer(70)),
                slot: None,
            },
            ImportDetails {
                import_type: None,
                name: "free".to_string(),
                module: None,
                address: None,
                slot: Some(pointer(71)),
            },
        ]
    );
}

#[test]
fn symbols_are_decoded_in_order() {
    let module = Module::from_sys(raw_module(50, "libc.so"));
    let reply = vec![
        sys::SymbolDetails {
            is_global: true,
            symbol_type: "function".to_string(),
            section: Some(sys::SymbolSectionDetails {
                id: "0.__TEXT.__text".to_string(),
                protection: "r-x".to_string(),
            }),
            name: "main".to_string(),
            address: handle(80),
            size: Some(24),
        },
        sys::SymbolDetails {
            is_global: false,
            symbol_type: "object".to_string(),
            section: None,
            name: "table".to_string(),
            address: handle(81),
            size: None,
        },
    ];
    assert_eq!(
        module.enumerate_symbols(reply),
        vec![
            SymbolDetails {
                is_global: true,
                symbol_type: "function".to_string(),
                section: Some(SymbolSectionDetails {
                    id: "0.__TEXT.__text".to_string(),
                    protection: "r-x".to_string(),
                }),
                name: "main".to_string(),
                address: pointer(80),
                size: Some(24),
            },
            SymbolDetails {
                is_global: false,
                symbol_type: "object".to_string(),
                section: None,
                name: "table".to_string(),
                address: pointer(81),
                size: None,
            },
        ]
    );
}

#[test]
fn module_ranges_are_decoded_in_order() {
    let module = Module::from_sys(raw_module(50, "libc.so"));
    let ranges = module.enumerate_ranges(vec![raw_range(90, true), raw_range(92, false)]);
    assert_eq!(
        ranges,
        vec![
            RangeDetails {
                base: pointer(91),
                size: 8192,
                protection: "r-x".to_string(),
                file: Some(FileMapping { path: "/bin/cat".to_string(), offset: 16, size: 32 }),
            },
            RangeDetails {
                base: pointer(93),
                size: 8192,
                protection: "r-x".to_string(),
                file: None,
            },
        ]
    );
}

#[test]
fn range_and_file_mapping_are_decoded() {
    assert_eq!(
        FileMapping::from(sys::FileMapping { path: "/a".to_string(), offset: 1, size: 2 }),
        FileMapping { path: "/a".to_string(), offset: 1, size: 2 }
    );
    let range = RangeDetails::from(raw_range(30, true));
    assert_eq!(range.base, pointer(31));
    assert_eq!(range.size, 8192);
    assert_eq!(range.protection, "r-x");
    assert_eq!(range.file.unwrap().path, "/bin/cat");
}

#[test]
fn debug_symbol_is_decoded_and_given_back() {
    let raw = sys::DebugSymbol {
        handle: handle(20),
        address: handle(21),
        name: Some("main".to_string()),
        module_name: Some("a.out".to_string()),
        file_name: None,
        line_number: Some(17),
    };
    let symbol = DebugSymbol::from_name(raw.clone());
    assert_eq!(symbol.address, pointer(21));
    assert_eq!(symbol.symbol_name.as_deref(), Some("main"));
    assert_eq!(symbol.module_name.as_deref(), Some("a.out"));
    assert_eq!(symbol.file_name, None);
    assert_eq!(symbol.line_number, Some(17));
    assert_eq!(symbol.to_sys(), handle(20));
    assert_eq!(symbol.into_sys(), raw);
    let symbol = DebugSymbol::from_address(raw.clone());
    assert_eq!(symbol, DebugSymbol::from_sys(raw.clone()));
    assert_eq!(symbol.into_sys(), raw);
}

#[test]
fn found_functions_are_wrapped_in_order() {
    assert_eq!(find_functions(vec![handle(5), handle(3), handle(5)]), vec![
        pointer(5),
        pointer(3),
        pointer(5)
    ]);
    assert_eq!(find_matching_functions(vec![handle(8)]), vec![pointer(8)]);
    assert_eq!(find_functions(Vec::new()), Vec::new());
}

#[test]
fn resolver_type_has_the_host_word() {
    assert_eq!(Type::Module.to_string(), "module");
    assert_eq!(Type::Objc.to_string(), "objc");
}

#[test]
fn resolver_matches_are_decoded_in_order() {
    let resolver = ApiResolver::new(handle(33));
    assert_eq!(resolver.to_sys(), handle(33));
    let reply = Ok(vec![
        sys::ApiMatch { name: "/lib/libc.so!open".to_string(), address: handle(40) },
        sys::ApiMatch { name: "/lib/libc.so!openat".to_string(), address: handle(41) },
    ]);
    let found = resolver.enumerate_matches(reply).unwrap();
    assert_eq!(found.len(), 2);
    assert_eq!(found[0].name, "/lib/libc.so!open");
    assert_eq!(found[0].address, pointer(40));
    assert_eq!(found[1].name, "/lib/libc.so!openat");
    assert_eq!(found[1].address, pointer(41));
}

#[test]
fn resolver_passes_the_host_error_on() {
    let resolver = ApiResolver::new(handle(33));
    let reply = Err(HostError { description: "Error: invalid query".to_string() });
    assert_eq!(
        resolver.enumerate_matches(reply),
        Err(HostError { description: "Error: invalid query".to_string() })
    );
}

#[test]
fn scan_matches_are_decoded_in_order() {
    let found = frida_rs::memory::scan(vec![
        sys::MemoryMatch { address: handle(10), size: 4 },
        sys::MemoryMatch { address: handle(11), size: 0 },
    ]);
    assert_eq!(
        found,
        vec![
            frida_rs::memory::Match { address: pointer(10), size: 4 },
            frida_rs::memory::Match { address: pointer(11), size: 0 },
        ]
    );
}

#[test]
fn module_map_decodes_lookups_and_values() {
    let map = ModuleMap::new(handle(70));
    assert_eq!(map.to_sys(), handle(70));
    assert_eq!(ModuleMap::new_with_filter(handle(71)).to_sys(), handle(71));
    let mut none = raw_module(0, "");
    none.handle = ForeignHandle::null();
    assert_eq!(map.get_module(none), None);
    let found = map.get_module(raw_module(80, "libm.so")).unwrap();
    assert_eq!(found.name, "libm.so");
    assert_eq!(found.into_sys(), raw_module(80, "libm.so"));
    let all = map.values(vec![raw_module(80, "libm.so"), raw_module(82, "libz.so")]);
    assert_eq!(all.len(), 2);
    assert_eq!(all[0].name, "libm.so");
    assert_eq!(all[1].name, "libz.so");
    assert_eq!(all[1].base, pointer(83));
}
