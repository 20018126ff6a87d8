use keyboard_splitter::crash::{
    crash_file_name, exception_kind, exception_line, module_description, panic_line,
    panic_location,
};

#[test]
fn exception_kinds() {
    assert_eq!(exception_kind(0xC0000005, 1, 0x10), "access violation: write to 0x0000000000000010");
    assert_eq!(exception_kind(0xC0000005, 8, 0xdead), "access violation: execute of 0x000000000000dead");
    assert_eq!(exception_kind(0xC0000005, 0, 0), "access violation: read of 0x0000000000000000");
    assert_eq!(exception_kind(0xC00000FD, 0, 0), "stack overflow");
    assert_eq!(exception_kind(0xC000001D, 0, 0), "illegal instruction");
    assert_eq!(exception_kind(0x80000003, 0, 0), "unhandled exception 0x80000003");
    assert_eq!(exception_kind(0x1F, 0, 0), "unhandled exception 0x0000001f");
}

#[test]
fn exception_lines() {
    assert_eq!(module_description("app.exe", 0x1234, 0x1000), "app.exe (offset +0x234)");
    assert_eq!(module_description("a.dll", 5, 5), "a.dll (offset +0x0)");
    assert_eq!(
        exception_line("stack overflow", 0xABC, 42, "<unknown>"),
        "stack overflow at 0x0000000000000abc (thread 42) in <unknown>"
    );
}

#[test]
fn panic_lines() {
    let loc = panic_location("src/main.rs", 10, 5);
    assert_eq!(loc, "src/main.rs:10:5");
    assert_eq!(panic_line(&loc, "boom"), "panic at src/main.rs:10:5: boom");
    assert_eq!(crash_file_name(1700000000, 42, "log"), "crash-1700000000-42.log");
}
