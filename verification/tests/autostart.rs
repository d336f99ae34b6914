use brightwheel::autostart::{
    dword_bytes, executable_error, initialize_default, lookup_status, quoted_command,
    run_entry_matches, set_enabled, string_value_bytes, RegistryChange, REG_DWORD, REG_SZ,
};

#[test]
fn enabling_writes_the_command_and_marks_the_configuration() {
    assert_eq!(
        set_enabled(true),
        vec![RegistryChange::RegisterRunCommand, RegistryChange::MarkConfigured]
    );
    assert_eq!(
        set_enabled(false),
        vec![RegistryChange::RemoveRunCommand, RegistryChange::MarkConfigured]
    );
}

#[test]
fn first_launch_enables_startup_once() {
    assert_eq!(initialize_default(false), set_enabled(true));
    assert!(initialize_default(true).is_empty());
}

#[test]
fn recognizes_the_registered_command_ignoring_case() {
    let command = quoted_command("C:\\Tools\\BrightWheel.exe");
    assert_eq!(command, "\"C:\\Tools\\BrightWheel.exe\"");
    let stored = string_value_bytes("\"c:\\tools\\brightwheel.EXE\"");
    assert!(run_entry_matches(REG_SZ, &stored, &command));
    assert!(!run_entry_matches(REG_DWORD, &stored, &command));
    assert!(!run_entry_matches(REG_SZ, &stored[..stored.len() - 1].to_vec(), &command));
    let other = string_value_bytes("\"C:\\Other.exe\"");
    assert!(!run_entry_matches(REG_SZ, &other, &command));
}

#[test]
fn encodes_registry_data_little_endian() {
    assert_eq!(string_value_bytes("Aé"), vec![0x41, 0, 0xe9, 0, 0, 0]);
    assert_eq!(dword_bytes(1), vec![1, 0, 0, 0]);
    assert_eq!(dword_bytes(0x0102_0304), vec![4, 3, 2, 1]);
}

#[test]
fn reads_registry_statuses() {
    assert!(lookup_status("RegOpenKeyExW failed", 0).unwrap());
    assert!(!lookup_status("RegOpenKeyExW failed", 2).unwrap());
    let error = lookup_status("RegOpenKeyExW failed", 5).unwrap_err();
    assert!(error.to_string().starts_with("RegOpenKeyExW failed: "));
    assert_eq!(
        executable_error("access denied").to_string(),
        "cannot resolve current executable: access denied"
    );
}

#[test]
fn the_written_run_value_reads_back_as_the_command() {
    for path in ["C:\\Program Files\\BrightWheel\\brightwheel.exe", "D:\\яркость\\💡.exe", ""] {
        let command = quoted_command(path);
        assert!(run_entry_matches(REG_SZ, &string_value_bytes(&command), &command));
    }
}
