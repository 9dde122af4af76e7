use wasmos::exec::{async_number, async_number_message, ProcessorWaker};
use wasmos::shell::{load_shell, ShellEngine};
use wasmos::guest::{
    append_decimal, guest_print_text, hello_message, ENTRY_EXPORT, HELLO_FUNCTION, HOST_MODULE,
    MEMORY_EXPORT, PRINT_FUNCTION,
};
use wasmos::interrupts::{
    handler_for_vector, lapic_config, respond, table_routes, Handler, InterruptIndex, Route,
    TableLayout, BREAKPOINT_VECTOR, DOUBLE_FAULT_VECTOR,
};
use wasmos::log::{install_stdio_port, StdioSlot};
use wasmos::memory::{conventional_spans, sizes_fit, ClaimSpan, MemoryRegion, CONVENTIONAL, PAGE_SIZE};
use wasmos::runner::{boot_path_components, boot_status, qemu_args, BootStatus};

#[test]
fn apic_vectors_are_32_to_34() {
    assert_eq!(InterruptIndex::Timer.as_usize(), 32);
    assert_eq!(InterruptIndex::Error.as_usize(), 33);
    assert_eq!(InterruptIndex::Spurious.as_usize(), 34);
}

#[test]
fn vector_round_trip() {
    for idx in [InterruptIndex::Timer, InterruptIndex::Error, InterruptIndex::Spurious] {
        assert_eq!(InterruptIndex::from_vector(idx.as_usize()), Some(idx));
    }
    assert_eq!(InterruptIndex::from_vector(31), None);
    assert_eq!(InterruptIndex::from_vector(35), None);
    assert_eq!(InterruptIndex::from_vector(0), None);
}

#[test]
fn default_table_routes_vectors() {
    assert_eq!(handler_for_vector(8), Some(Handler::DoubleFault));
    assert_eq!(handler_for_vector(3), Some(Handler::Breakpoint));
    assert_eq!(handler_for_vector(32), Some(Handler::Timer));
    assert_eq!(handler_for_vector(33), Some(Handler::Error));
    assert_eq!(handler_for_vector(34), Some(Handler::Spurious));
    assert_eq!(DOUBLE_FAULT_VECTOR, 8);
    assert_eq!(BREAKPOINT_VECTOR, 3);
}

#[test]
fn default_table_leaves_other_vectors_missing() {
    for v in [0usize, 1, 2, 4, 7, 9, 13, 14, 31, 35, 100, 255, 256, 1000] {
        assert_eq!(handler_for_vector(v), None, "vector {}", v);
    }
}

#[test]
fn handler_responses() {
    let df = respond(Handler::DoubleFault);
    assert_eq!(df.header, "EXCEPTION: DOUBLE FAULT");
    assert!(df.reports_error_code && df.diverges && !df.ends_interrupt);

    let bp = respond(Handler::Breakpoint);
    assert_eq!(bp.header, "EXCEPTION: BREAKPOINT");
    assert!(!bp.reports_error_code && !bp.diverges && !bp.ends_interrupt);

    for (h, header) in [
        (Handler::Timer, "TIMER:"),
        (Handler::Error, "ERROR:"),
        (Handler::Spurious, "SPURIOUS:"),
    ] {
        let r = respond(h);
        assert_eq!(r.header, header);
        assert!(r.ends_interrupt && !r.diverges && !r.reports_error_code);
    }
}

#[test]
fn apic_interrupts_are_acknowledged() {
    for idx in [InterruptIndex::Timer, InterruptIndex::Error, InterruptIndex::Spurious] {
        let h = handler_for_vector(idx.as_usize()).unwrap();
        assert!(respond(h).ends_interrupt);
    }
}

#[test]
fn lapic_configuration() {
    let c = lapic_config(0xfee0_0000);
    assert_eq!(c.timer_vector, 32);
    assert_eq!(c.error_vector, 33);
    assert_eq!(c.spurious_vector, 34);
    assert_eq!(c.xapic_base, 0xfee0_0000);
}

#[test]
fn stdio_port_installs_once() {
    let mut slot: StdioSlot<u16> = StdioSlot::new();
    assert!(!slot.is_installed());
    assert!(slot.writer().is_none());
    assert_eq!(install_stdio_port(&mut slot, 0x03f8), Ok(()));
    assert!(slot.is_installed());
    assert_eq!(slot.writer().copied(), Some(0x03f8));
    assert_eq!(install_stdio_port(&mut slot, 0x02f8), Err(0x02f8));
    assert_eq!(slot.writer().copied(), Some(0x03f8));
}

#[test]
fn stdio_writer_reaches_installed_port() {
    let mut slot: StdioSlot<Vec<u8>> = StdioSlot::new();
    assert_eq!(install_stdio_port(&mut slot, Vec::new()), Ok(()));
    if let Some(w) = slot.writer() {
        w.extend_from_slice(b"log line\n");
    }
    assert_eq!(slot.writer().map(|w| w.clone()), Some(b"log line\n".to_vec()));
}


#[test]
fn conventional_memory_type_code() {
    // EfiConventionalMemory in the UEFI specification's EFI_MEMORY_TYPE.
    assert_eq!(CONVENTIONAL, 7);
    assert_eq!(PAGE_SIZE, 4096);
}

#[test]
fn only_conventional_regions_are_claimed() {
    let loader = 2u32; // EfiLoaderData
    let regions = vec![
        MemoryRegion { ty: loader, phys_start: 0x1000, page_count: 3 },
        MemoryRegion { ty: CONVENTIONAL, phys_start: 0x10_0000, page_count: 16 },
        MemoryRegion { ty: 0, phys_start: 0, page_count: 1 },
        MemoryRegion { ty: CONVENTIONAL, phys_start: 0x20_0000, page_count: 1 },
    ];
    let spans = conventional_spans(&regions);
    assert_eq!(
        spans,
        vec![
            ClaimSpan { base: 0x10_0000, size: 16 * 4096 },
            ClaimSpan { base: 0x20_0000, size: 4096 },
        ]
    );
}

#[test]
fn oversized_conventional_region_does_not_fit() {
    let huge = MemoryRegion { ty: CONVENTIONAL, phys_start: 0, page_count: u64::MAX };
    let small = MemoryRegion { ty: CONVENTIONAL, phys_start: 0, page_count: 16 };
    let reserved_huge = MemoryRegion { ty: 0, phys_start: 0, page_count: u64::MAX };
    assert!(!sizes_fit(&vec![small, huge]));
    assert!(sizes_fit(&vec![small, reserved_huge]));
    assert!(sizes_fit(&Vec::new()));
    assert_eq!(conventional_spans(&vec![reserved_huge, small]), vec![ClaimSpan { base: 0, size: 16 * 4096 }]);
}

#[test]
fn empty_map_claims_nothing() {
    assert!(conventional_spans(&Vec::new()).is_empty());
    let regions = vec![MemoryRegion { ty: 1, phys_start: 0, page_count: 1 }];
    assert!(conventional_spans(&regions).is_empty());
}

#[test]
fn zero_page_region_gives_empty_span() {
    let regions = vec![MemoryRegion { ty: CONVENTIONAL, phys_start: 0x5000, page_count: 0 }];
    assert_eq!(conventional_spans(&regions), vec![ClaimSpan { base: 0x5000, size: 0 }]);
}

#[test]
fn print_reads_guest_memory() {
    let mut memory = vec![0u8; 64];
    memory[10..15].copy_from_slice(b"hello");
    assert_eq!(guest_print_text(&memory, 10, 5).as_deref(), Some("hello"));
    assert_eq!(guest_print_text(&memory, 10, 2).as_deref(), Some("he"));
    assert_eq!(guest_print_text(&memory, 0, 0).as_deref(), Some(""));
}

#[test]
fn print_decodes_utf8() {
    let text = "grüße, λ";
    let mut memory = vec![b'x'; 4];
    memory.extend_from_slice(text.as_bytes());
    let len = text.len() as u32;
    assert_eq!(guest_print_text(&memory, 4, len).as_deref(), Some(text));
}

#[test]
fn print_of_invalid_utf8_is_refused() {
    let memory = vec![b'a', 0xff, 0xfe, b'b'];
    assert_eq!(guest_print_text(&memory, 0, 4), None);
    // a truncated multi-byte sequence
    let memory = "é".as_bytes().to_vec();
    assert_eq!(guest_print_text(&memory, 0, 1), None);
}

#[test]
fn out_of_bounds_print_is_nul_characters() {
    let memory = b"abcdef".to_vec();
    assert_eq!(guest_print_text(&memory, 4, 3).as_deref(), Some("\0\0\0"));
    assert_eq!(guest_print_text(&memory, 6, 0).as_deref(), Some(""));
    assert_eq!(guest_print_text(&memory, 7, 0).as_deref(), Some(""));
    assert_eq!(guest_print_text(&memory, u32::MAX, 2).as_deref(), Some("\0\0"));
    assert_eq!(guest_print_text(&memory, 2, 4).as_deref(), Some("cdef"));
}

#[test]
fn hello_messages() {
    assert_eq!(hello_message(42), "Got 42 from WebAssembly");
    assert_eq!(hello_message(0), "Got 0 from WebAssembly");
    assert_eq!(hello_message(-7), "Got -7 from WebAssembly");
    assert_eq!(hello_message(i32::MIN), "Got -2147483648 from WebAssembly");
}

#[test]
fn qemu_command_line() {
    let args = qemu_args("/fw/OVMF.fd", "/tmp/kernel.x");
    assert_eq!(
        args,
        vec![
            "-nodefaults",
            "-display",
            "none",
            "-serial",
            "stdio",
            "-device",
            "isa-debug-exit,iobase=0xf4,iosize=0x04",
            "-bios",
            "/fw/OVMF.fd",
            "-drive",
            "format=raw,file=fat:rw:/tmp/kernel.x",
        ]
    );
}

#[test]
fn boot_image_path() {
    assert_eq!(boot_path_components(), vec!["EFI", "BOOT", "BOOTX64.EFI"]);
}

#[test]
fn boot_status_follows_kernel_result() {
    assert_eq!(boot_status(Ok(())), BootStatus::Success);
    assert_eq!(boot_status(Err(())), BootStatus::Unsupported);
}

#[test]
fn processor_waker_keeps_processor() {
    let w = ProcessorWaker::new(3);
    assert_eq!(w.processor(), 3);
    assert_eq!(w.0, 3);
}

#[test]
fn kernel_table_routes() {
    assert_eq!(
        table_routes(TableLayout::WithApic),
        vec![
            Route { vector: 8, handler: Handler::DoubleFault },
            Route { vector: 3, handler: Handler::Breakpoint },
            Route { vector: 32, handler: Handler::Timer },
            Route { vector: 33, handler: Handler::Error },
            Route { vector: 34, handler: Handler::Spurious },
        ]
    );
}

#[test]
fn exceptions_only_table_routes() {
    assert_eq!(
        table_routes(TableLayout::ExceptionsOnly),
        vec![
            Route { vector: 8, handler: Handler::DoubleFault },
            Route { vector: 3, handler: Handler::Breakpoint },
        ]
    );
}

#[test]
fn routes_agree_with_dispatch() {
    let routes = table_routes(TableLayout::WithApic);
    for v in 0..300usize {
        let listed = routes.iter().find(|r| r.vector == v).map(|r| r.handler);
        assert_eq!(listed, handler_for_vector(v), "vector {}", v);
    }
}

#[test]
fn decimal_appends() {
    let mut s = String::from("n=");
    append_decimal(&mut s, 1234567);
    assert_eq!(s, "n=1234567");
    let mut s = String::new();
    append_decimal(&mut s, i32::MAX);
    assert_eq!(s, "2147483647");
    let mut s = String::new();
    append_decimal(&mut s, -10);
    assert_eq!(s, "-10");
}

#[test]
fn guest_interface_names() {
    assert_eq!(HOST_MODULE, "host");
    assert_eq!(PRINT_FUNCTION, "wasmos_print");
    assert_eq!(HELLO_FUNCTION, "hello");
    assert_eq!(MEMORY_EXPORT, "memory");
    assert_eq!(ENTRY_EXPORT, "main");
}

#[test]
fn shell_module_loads() {
    let engine = ShellEngine::new();
    // The smallest module: magic number and version 1.
    let empty = [0x00u8, 0x61, 0x73, 0x6d, 0x01, 0x00, 0x00, 0x00];
    let module = load_shell(&engine, &empty).expect("valid module");
    assert_eq!(module.module().imports().len(), 0);
    assert_eq!(module.module().exports().count(), 0);
}

#[test]
fn invalid_shell_is_refused() {
    let engine = ShellEngine::new();
    assert!(load_shell(&engine, b"not wasm").is_none());
    assert!(load_shell(&engine, &[]).is_none());
    // wrong version
    assert!(load_shell(&engine, &[0x00, 0x61, 0x73, 0x6d, 0x02, 0x00, 0x00, 0x00]).is_none());
}

#[test]
fn async_number_line() {
    assert_eq!(async_number(), 42);
    assert_eq!(async_number_message(async_number()), "async number: 42");
    assert_eq!(async_number_message(0), "async number: 0");
    assert_eq!(async_number_message(u32::MAX), "async number: 4294967295");
}
