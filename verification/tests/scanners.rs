use argus::tools::{Arg, Tool, ToolError, ToolRunner};

fn text(s: &str) -> Arg {
    Arg::Text(s.to_string())
}

#[test]
fn nmap_command_line() {
    assert_eq!(
        ToolRunner::nmap_command("10.0.0.1"),
        vec![text("-sV"), text("-sC"), text("-oN"), Arg::OutputFile, text("10.0.0.1")]
    );
}

#[test]
fn nikto_command_line() {
    assert_eq!(
        ToolRunner::nikto_command("http://t"),
        vec![text("-h"), text("http://t"), text("-o"), Arg::OutputFile]
    );
}

#[test]
fn gobuster_command_line() {
    assert_eq!(
        ToolRunner::gobuster_command("http://t", "/w.txt"),
        vec![
            text("dir"),
            text("-u"),
            text("http://t"),
            text("-w"),
            text("/w.txt"),
            text("-o"),
            Arg::OutputFile,
            text("-k"),
        ]
    );
}

#[test]
fn empty_target_is_passed_through() {
    assert_eq!(
        ToolRunner::nikto_command(""),
        vec![text("-h"), text(""), text("-o"), Arg::OutputFile]
    );
}

#[test]
fn programs_and_result_files() {
    assert_eq!(Tool::Nmap.program(), "nmap");
    assert_eq!(Tool::Nikto.program(), "nikto");
    assert_eq!(Tool::Gobuster.program(), "gobuster");
    assert_eq!(Tool::Nmap.file_name(), "nmap.txt");
    assert_eq!(Tool::Nikto.file_name(), "nikto.txt");
    assert_eq!(Tool::Gobuster.file_name(), "gobuster.txt");
    assert_eq!(Tool::Nmap.name(), "Nmap");
    assert_eq!(Tool::Nikto.name(), "Nikto");
    assert_eq!(Tool::Gobuster.name(), "Gobuster");
}

#[test]
fn only_nmap_checks_its_status() {
    assert!(Tool::Nmap.checks_status());
    assert!(!Tool::Nikto.checks_status());
    assert!(!Tool::Gobuster.checks_status());
}

#[test]
fn nmap_failure_carries_stderr() {
    let r = ToolRunner::outcome(Tool::Nmap, false, "partial".to_string(), "no route".to_string());
    assert_eq!(r, Err(ToolError::Failed { tool: Tool::Nmap, stderr: "no route".to_string() }));
    assert_eq!(r.unwrap_err().message(), "Nmap failed: no route");
}

#[test]
fn nmap_success_yields_stdout() {
    let r = ToolRunner::outcome(Tool::Nmap, true, "80/tcp open".to_string(), "warn".to_string());
    assert_eq!(r, Ok("80/tcp open".to_string()));
}

#[test]
fn nikto_and_gobuster_ignore_their_status() {
    assert_eq!(
        ToolRunner::outcome(Tool::Nikto, false, "findings".to_string(), "err".to_string()),
        Ok("findings".to_string())
    );
    assert_eq!(
        ToolRunner::outcome(Tool::Gobuster, false, "/admin".to_string(), "err".to_string()),
        Ok("/admin".to_string())
    );
    assert_eq!(
        ToolRunner::outcome(Tool::Gobuster, true, "/admin".to_string(), String::new()),
        Ok("/admin".to_string())
    );
}

#[test]
fn output_bytes_are_decoded_lossily() {
    let r = ToolRunner::collect(Tool::Nikto, true, b"ok \xff end", b"");
    assert_eq!(r, Ok("ok \u{FFFD} end".to_string()));
    let e = ToolRunner::collect(Tool::Nmap, false, b"out", b"bad \xfe");
    assert_eq!(e, Err(ToolError::Failed { tool: Tool::Nmap, stderr: "bad \u{FFFD}".to_string() }));
}
