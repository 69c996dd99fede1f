use friday::tools::{
    open_application_report, powershell_args, start_process_script, system_report,
    terminal_command_report, terminal_report, DiskLine, ProcessOutcome, SystemMetrics,
};

fn finished(success: bool, out: &[u8], err: &[u8]) -> ProcessOutcome {
    ProcessOutcome::Finished { success, stdout: out.to_vec(), stderr: err.to_vec() }
}

#[test]
fn powershell_runs_silently() {
    assert_eq!(
        powershell_args("Get-Date"),
        vec!["-NoProfile", "-NonInteractive", "-Command", "Get-Date"]
    );
}

#[test]
fn terminal_output_is_trimmed() {
    assert_eq!(terminal_command_report(&finished(true, b"  hello\r\n", b"")), "hello");
}

#[test]
fn terminal_error_output_wins() {
    assert_eq!(
        terminal_command_report(&finished(true, b"out", b" oops \n")),
        "Command Error:\noops"
    );
}

#[test]
fn terminal_without_output() {
    assert_eq!(
        terminal_command_report(&finished(false, b" \n", b"\t")),
        "Command executed successfully with no output."
    );
}

#[test]
fn terminal_spawn_failure_and_other_platforms() {
    assert_eq!(
        terminal_command_report(&ProcessOutcome::SpawnFailed("not found".to_string())),
        "Failed to invoke PowerShell: not found"
    );
    assert_eq!(
        terminal_command_report(&ProcessOutcome::Unsupported),
        "Command execution is only implemented for Windows systems."
    );
}

#[test]
fn terminal_output_decodes_invalid_utf8_lossily() {
    assert_eq!(terminal_command_report(&finished(true, b"a\xffb", b"")), "a\u{fffd}b");
    assert_eq!(terminal_report(" x ", ""), "x");
}

#[test]
fn launch_script_quotes_target() {
    assert_eq!(start_process_script("notepad"), "Start-Process 'notepad'");
}

#[test]
fn launch_reports() {
    assert_eq!(
        open_application_report("spotify", &finished(true, b"", b"")),
        "Successfully launched 'spotify'."
    );
    assert_eq!(
        open_application_report("x", &finished(false, b"", b"no such app\n")),
        "Could not launch 'x': no such app\n"
    );
    assert_eq!(
        open_application_report("x", &ProcessOutcome::SpawnFailed("denied".to_string())),
        "Failed to spawn process: denied"
    );
    assert_eq!(
        open_application_report("x", &ProcessOutcome::Unsupported),
        "Application launching is only implemented for Windows systems."
    );
}

#[test]
fn system_report_lists_disks() {
    let m = SystemMetrics {
        cpu_usage: "12.5".to_string(),
        used_ram: "7.25".to_string(),
        total_ram: "15.50".to_string(),
        ram_percent: "46.8".to_string(),
        disks: vec![
            DiskLine { mount: "C:\\".to_string(), free_gb: "100.0".to_string(), total_gb: "476.9".to_string() },
            DiskLine { mount: "D:\\".to_string(), free_gb: "1.5".to_string(), total_gb: "2.0".to_string() },
        ],
    };
    assert_eq!(
        system_report(&m),
        "System Metrics:\n- CPU Usage: 12.5%\n- Memory: 7.25 GB / 15.50 GB used (46.8%)\n- Disks:\n  - Drive C:\\: 100.0 GB free / 476.9 GB total\n  - Drive D:\\: 1.5 GB free / 2.0 GB total"
    );
}

#[test]
fn system_report_without_disks() {
    let m = SystemMetrics {
        cpu_usage: "0.0".to_string(),
        used_ram: "1.00".to_string(),
        total_ram: "2.00".to_string(),
        ram_percent: "50.0".to_string(),
        disks: vec![],
    };
    assert_eq!(
        system_report(&m),
        "System Metrics:\n- CPU Usage: 0.0%\n- Memory: 1.00 GB / 2.00 GB used (50.0%)\n- Disks: None detected"
    );
}
