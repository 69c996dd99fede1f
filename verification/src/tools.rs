//! What the assistant's tools hand to PowerShell, and what they report back.
use vstd::prelude::*;
use crate::text::{decode_lossy, join2, join3, lossy_text, trim, trim_spec};

verus! {

/// What became of one PowerShell invocation.
pub enum ProcessOutcome {
    /// This platform has no PowerShell to run.
    Unsupported,
    /// The process could not be started; the error's message.
    SpawnFailed(String),
    /// The process ran: whether it exited successfully, and its raw output.
    Finished { success: bool, stdout: Vec<u8>, stderr: Vec<u8> },
}

/// The arguments handed to `powershell` to run `script` silently.
pub open spec fn powershell_args_spec(script: Seq<char>) -> Seq<Seq<char>> {
    seq!["-NoProfile"@, "-NonInteractive"@, "-Command"@, script]
}

/// The arguments of a silent, non-interactive PowerShell run of `script`.
pub fn powershell_args(script: &str) -> (r: Vec<String>)
    ensures
        r@.map_values(|a: String| a@) == powershell_args_spec(script@),
        r@.len() == 4,
        r@[0]@ == "-NoProfile"@,
        r@[1]@ == "-NonInteractive"@,
        r@[2]@ == "-Command"@,
        r@[3]@ == script@,
{
    let mut r: Vec<String> = Vec::new();
    r.push(String::from_str("-NoProfile"));
    r.push(String::from_str("-NonInteractive"));
    r.push(String::from_str("-Command"));
    r.push(String::from_str(script));
    assert(r@.map_values(|a: String| a@) =~= powershell_args_spec(script@));
    r
}

/// The report of a terminal command whose output decoded to `out` and whose
/// error output decoded to `err`.
pub open spec fn terminal_report_spec(out: Seq<char>, err: Seq<char>) -> Seq<char> {
    let o = trim_spec(out);
    let e = trim_spec(err);
    if e.len() != 0 {
        "Command Error:\n"@ + e
    } else if o.len() == 0 {
        "Command executed successfully with no output."@
    } else {
        o
    }
}

/// The report of a terminal command from its decoded output and error output:
/// the error output, trimmed, if there is any; else the trimmed output, or a
/// note that there was none.
pub fn terminal_report(out: &str, err: &str) -> (r: String)
    ensures
        r@ == terminal_report_spec(out@, err@),
{
    let o = trim(out);
    let e = trim(err);
    if e.as_str().unicode_len() != 0 {
        join2("Command Error:\n", e.as_str())
    } else if o.as_str().unicode_len() == 0 {
        String::from_str("Command executed successfully with no output.")
    } else {
        o
    }
}

/// The report of a terminal command for every outcome of its run.
pub open spec fn terminal_command_report_spec(outcome: ProcessOutcome) -> Seq<char> {
    match outcome {
        ProcessOutcome::Unsupported => "Command execution is only implemented for Windows systems."@,
        ProcessOutcome::SpawnFailed(e) => "Failed to invoke PowerShell: "@ + e@,
        ProcessOutcome::Finished { stdout, stderr, .. } => terminal_report_spec(
            lossy_text(stdout@),
            lossy_text(stderr@),
        ),
    }
}

/// What `run_terminal_command` answers, given what became of the PowerShell run.
pub fn terminal_command_report(outcome: &ProcessOutcome) -> (r: String)
    ensures
        r@ == terminal_command_report_spec(*outcome),
{
    match outcome {
        ProcessOutcome::Unsupported => String::from_str(
            "Command execution is only implemented for Windows systems.",
        ),
        ProcessOutcome::SpawnFailed(e) => join2("Failed to invoke PowerShell: ", e.as_str()),
        ProcessOutcome::Finished { stdout, stderr, .. } => {
            let out = decode_lossy(stdout.as_slice());
            let err = decode_lossy(stderr.as_slice());
            terminal_report(out.as_str(), err.as_str())
        },
    }
}

/// A terminal command always reports something: its error output, its
/// output, or a note that it had none.
pub proof fn lemma_terminal_report_never_empty(out: Seq<char>, err: Seq<char>)
    ensures
        terminal_report_spec(out, err).len() > 0,
{
    reveal_strlit("Command Error:\n");
    reveal_strlit("Command executed successfully with no output.");
}

/// A finished command reports, whatever its exit status: its trimmed error
/// output, headed `Command Error:`, whenever there is any; otherwise its
/// trimmed output; otherwise a note that it had none. Its exit status never
/// changes the report.
pub proof fn lemma_terminal_report_cases(success: bool, stdout: Vec<u8>, stderr: Vec<u8>)
    ensures
        ({
            let r = terminal_command_report_spec(ProcessOutcome::Finished { success, stdout, stderr });
            let o = trim_spec(lossy_text(stdout@));
            let e = trim_spec(lossy_text(stderr@));
            &&& e.len() > 0 ==> r == "Command Error:\n"@ + e
            &&& e.len() == 0 && o.len() == 0 ==> r == "Command executed successfully with no output."@
            &&& e.len() == 0 && o.len() > 0 ==> r == o
        }),
        terminal_command_report_spec(ProcessOutcome::Finished { success: true, stdout, stderr })
            == terminal_command_report_spec(
            ProcessOutcome::Finished { success: false, stdout, stderr },
        ),
{
}

/// A command that cannot start, or a platform without PowerShell, is reported
/// as such.
pub proof fn lemma_terminal_report_without_run(e: String)
    ensures
        terminal_command_report_spec(ProcessOutcome::SpawnFailed(e)) == "Failed to invoke PowerShell: "@
            + e@,
        terminal_command_report_spec(ProcessOutcome::Unsupported)
            == "Command execution is only implemented for Windows systems."@,
{
}

/// A launch reports success by its exit status alone, naming the target; a
/// failed one carries its error output, and the standard output never shows.
pub proof fn lemma_launch_report_cases(
    target: Seq<char>,
    success: bool,
    stdout: Vec<u8>,
    stderr: Vec<u8>,
    e: String,
)
    ensures
        success ==> open_application_report_spec(
            target,
            ProcessOutcome::Finished { success, stdout, stderr },
        ) == "Successfully launched '"@ + target + "'."@,
        !success ==> open_application_report_spec(
            target,
            ProcessOutcome::Finished { success, stdout, stderr },
        ) == "Could not launch '"@ + target + "': "@ + lossy_text(stderr@),
        open_application_report_spec(target, ProcessOutcome::SpawnFailed(e))
            == "Failed to spawn process: "@ + e@,
        open_application_report_spec(target, ProcessOutcome::Unsupported)
            == "Application launching is only implemented for Windows systems."@,
{
}

/// The PowerShell script that launches `target`.
pub fn start_process_script(target: &str) -> (r: String)
    ensures
        r@ == "Start-Process '"@ + target@ + "'"@,
{
    join3("Start-Process '", target, "'")
}

/// The report of a launch of `target` that failed with error text `err`.
pub fn launch_failure_report(target: &str, err: &str) -> (r: String)
    ensures
        r@ == "Could not launch '"@ + target@ + "': "@ + err@,
{
    join3("Could not launch '", target, "': ").concat(err)
}

/// The report of a launch of `target` for every outcome of its run.
pub open spec fn open_application_report_spec(target: Seq<char>, outcome: ProcessOutcome) -> Seq<
    char,
> {
    match outcome {
        ProcessOutcome::Unsupported => "Application launching is only implemented for Windows systems."@,
        ProcessOutcome::SpawnFailed(e) => "Failed to spawn process: "@ + e@,
        ProcessOutcome::Finished { success, stderr, .. } => if success {
            "Successfully launched '"@ + target + "'."@
        } else {
            "Could not launch '"@ + target + "': "@ + lossy_text(stderr@)
        },
    }
}

/// What `open_application` answers for `target`, given what became of the
/// PowerShell run.
pub fn open_application_report(target: &str, outcome: &ProcessOutcome) -> (r: String)
    ensures
        r@ == open_application_report_spec(target@, *outcome),
{
    match outcome {
        ProcessOutcome::Unsupported => String::from_str(
            "Application launching is only implemented for Windows systems.",
        ),
        ProcessOutcome::SpawnFailed(e) => join2("Failed to spawn process: ", e.as_str()),
        ProcessOutcome::Finished { success, stderr, .. } => {
            if *success {
                join3("Successfully launched '", target, "'.")
            } else {
                let err = decode_lossy(stderr.as_slice());
                launch_failure_report(target, err.as_str())
            }
        },
    }
}

/// One disk of the system report: where it is mounted, and its free and
/// total space in gigabytes, already written out.
pub struct DiskLine {
    pub mount: String,
    pub free_gb: String,
    pub total_gb: String,
}

/// The figures of the system report, each already written out: CPU load in
/// percent, memory used and total in gigabytes, memory used in percent, and
/// the disks.
pub struct SystemMetrics {
    pub cpu_usage: String,
    pub used_ram: String,
    pub total_ram: String,
    pub ram_percent: String,
    pub disks: Vec<DiskLine>,
}

/// The report's line for one disk.
pub open spec fn disk_line_spec(d: DiskLine) -> Seq<char> {
    "\n  - Drive "@ + d.mount@ + ": "@ + d.free_gb@ + " GB free / "@ + d.total_gb@ + " GB total"@
}

/// The report's lines for `disks`, in order.
pub open spec fn disks_text_spec(disks: Seq<DiskLine>) -> Seq<char>
    decreases disks.len(),
{
    if disks.len() == 0 {
        Seq::empty()
    } else {
        disks_text_spec(disks.drop_last()) + disk_line_spec(disks.last())
    }
}

/// The system report for `m`.
pub open spec fn system_report_spec(m: SystemMetrics) -> Seq<char> {
    let disks = disks_text_spec(m.disks@);
    "System Metrics:\n- CPU Usage: "@ + m.cpu_usage@ + "%\n- Memory: "@ + m.used_ram@ + " GB / "@
        + m.total_ram@ + " GB used ("@ + m.ram_percent@ + "%)\n- Disks:"@ + if disks.len() == 0 {
        " None detected"@
    } else {
        disks
    }
}

/// What `read_system_info` answers for the figures `m`: CPU, memory and one
/// line per disk, or a note that no disk was found.
pub fn system_report(m: &SystemMetrics) -> (r: String)
    ensures
        r@ == system_report_spec(*m),
{
    let mut disks = String::new();
    let mut i: usize = 0;
    while i < m.disks.len()
        invariant
            i <= m.disks@.len(),
            disks@ == disks_text_spec(m.disks@.subrange(0, i as int)),
        decreases m.disks@.len() - i,
    {
        let d = &m.disks[i];
        disks.append("\n  - Drive ");
        disks.append(d.mount.as_str());
        disks.append(": ");
        disks.append(d.free_gb.as_str());
        disks.append(" GB free / ");
        disks.append(d.total_gb.as_str());
        disks.append(" GB total");
        assert(m.disks@.subrange(0, i + 1).drop_last() =~= m.disks@.subrange(0, i as int));
        i = i + 1;
    }
    assert(m.disks@.subrange(0, m.disks@.len() as int) =~= m.disks@);
    let mut r = String::from_str("System Metrics:\n- CPU Usage: ");
    r.append(m.cpu_usage.as_str());
    r.append("%\n- Memory: ");
    r.append(m.used_ram.as_str());
    r.append(" GB / ");
    r.append(m.total_ram.as_str());
    r.append(" GB used (");
    r.append(m.ram_percent.as_str());
    r.append("%)\n- Disks:");
    if disks.as_str().unicode_len() == 0 {
        r.append(" None detected");
    } else {
        r.append(disks.as_str());
    }
    r
}

/// The system report's heading and figures, before its disk section.
pub open spec fn report_head(m: SystemMetrics) -> Seq<char> {
    "System Metrics:\n- CPU Usage: "@ + m.cpu_usage@ + "%\n- Memory: "@ + m.used_ram@ + " GB / "@
        + m.total_ram@ + " GB used ("@ + m.ram_percent@ + "%)\n- Disks:"@
}

/// Every disk is listed, in order: a report for one more disk is the report
/// for the others followed by that disk's line, `Drive <mount>: <free> GB
/// free / <total> GB total`; with no disk at all the report says none was
/// detected, and a single disk gives just its line.
pub proof fn lemma_every_disk_is_listed(m1: SystemMetrics, m2: SystemMetrics, d: DiskLine)
    requires
        m2.cpu_usage == m1.cpu_usage,
        m2.used_ram == m1.used_ram,
        m2.total_ram == m1.total_ram,
        m2.ram_percent == m1.ram_percent,
        m2.disks@ == m1.disks@.push(d),
    ensures
        m1.disks@.len() > 0 ==> system_report_spec(m2) == system_report_spec(m1) + "\n  - Drive "@
            + d.mount@ + ": "@ + d.free_gb@ + " GB free / "@ + d.total_gb@ + " GB total"@,
        m1.disks@.len() == 0 ==> system_report_spec(m1) == report_head(m1) + " None detected"@,
        m1.disks@.len() == 0 ==> system_report_spec(m2) == report_head(m1) + "\n  - Drive "@
            + d.mount@ + ": "@ + d.free_gb@ + " GB free / "@ + d.total_gb@ + " GB total"@,
{
    reveal_strlit("\n  - Drive ");
    assert(m2.disks@.drop_last() =~= m1.disks@);
    let l = "\n  - Drive "@ + d.mount@ + ": "@ + d.free_gb@ + " GB free / "@ + d.total_gb@
        + " GB total"@;
    assert(disks_text_spec(m2.disks@) == disks_text_spec(m1.disks@) + l);
    if m1.disks@.len() > 0 {
        lemma_disks_text_nonempty(m1.disks@);
        assert(system_report_spec(m2) =~= report_head(m1) + disks_text_spec(m1.disks@) + l);
    } else {
        assert(disks_text_spec(m1.disks@) == Seq::<char>::empty());
        assert(disks_text_spec(m2.disks@) =~= l);
        assert(l.len() > 0);
    }
}

proof fn lemma_disks_text_nonempty(disks: Seq<DiskLine>)
    requires
        disks.len() > 0,
    ensures
        disks_text_spec(disks).len() > 0,
{
    reveal_strlit("\n  - Drive ");
}

} // verus!
