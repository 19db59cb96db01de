//! The command dispatchers: each turns a performed effect into exactly one
//! record of the documented kind and payload shape.

use lyrebird::commands::{
    Commands, EffectReport, FileArgs, FileCommand, LyrebirdCli, NetCommands, NetSendReport,
    StartProcess, TcpMessage,
};
use lyrebird::log::Log;
use lyrebird::sink::MemorySink;

fn sample_log() -> Log<MemorySink> {
    Log::new(
        MemorySink::new(),
        Some(String::from("alice")),
        vec![String::from("lyrebird")],
        99,
    )
}

fn parse_single_line(text: &str) -> serde_json::Value {
    assert_eq!(text.matches('\n').count(), 1, "exactly one record expected");
    serde_json::from_str(text.trim_end()).expect("record line must parse as JSON")
}

#[test]
fn file_create_records_action_and_path() {
    let mut log = sample_log();
    let command = FileCommand::Create(FileArgs { path: String::from("x.txt") });
    command.dispatch(&mut log, "/tmp/x.txt").expect("dispatch failed");

    let record = parse_single_line(log.sink.text());
    assert_eq!(record["type"].as_str(), Some("File"));
    assert_eq!(record["data"]["action"].as_str(), Some("create"));
    assert_eq!(record["data"]["file"].as_str(), Some("/tmp/x.txt"));
}

#[test]
fn file_delete_and_modify_record_their_actions() {
    let mut log = sample_log();
    FileCommand::Delete(FileArgs { path: String::from("a") })
        .dispatch(&mut log, "/a")
        .unwrap();
    FileCommand::Modify(FileArgs { path: String::from("b") })
        .dispatch(&mut log, "/b")
        .unwrap();

    let text = log.sink.text().clone();
    let lines: Vec<&str> = text.lines().collect();
    assert_eq!(lines.len(), 2);
    let first: serde_json::Value = serde_json::from_str(lines[0]).unwrap();
    let second: serde_json::Value = serde_json::from_str(lines[1]).unwrap();
    assert_eq!(first["data"]["action"].as_str(), Some("delete"));
    assert_eq!(first["data"]["file"].as_str(), Some("/a"));
    assert_eq!(second["data"]["action"].as_str(), Some("modify"));
    assert_eq!(second["data"]["file"].as_str(), Some("/b"));
}

#[test]
fn process_start_records_child() {
    let mut log = sample_log();
    let command = StartProcess {
        exe: String::from("touch"),
        args: vec![String::from("/tmp/x")],
    };
    command.record_start(&mut log, 4242).expect("record_start failed");

    let record = parse_single_line(log.sink.text());
    assert_eq!(record["type"].as_str(), Some("StartProcess"));
    assert_eq!(record["data"]["cmd"].as_str(), Some("touch"));
    assert_eq!(record["data"]["args"][0].as_str(), Some("/tmp/x"));
    assert_eq!(record["data"]["pid"].as_u64(), Some(4242));
}

#[test]
fn net_send_records_endpoints_and_bytes() {
    let mut log = sample_log();
    let command = NetCommands::Tcp(TcpMessage {
        dest: String::from("127.0.0.5:9876"),
        data: String::from("Ping from Lyrebird!"),
        timeout: 10,
    });
    let report = NetSendReport {
        bytes: 19,
        src_addr: String::from("127.0.0.1"),
        src_port: 50000,
        dst_addr: String::from("127.0.0.5"),
        dst_port: 9876,
    };
    command.dispatch(&mut log, &report).expect("dispatch failed");

    let record = parse_single_line(log.sink.text());
    assert_eq!(record["type"].as_str(), Some("NetSend"));
    assert_eq!(record["data"]["proto"].as_str(), Some("TCP"));
    assert_eq!(record["data"]["src_addr"].as_str(), Some("127.0.0.1"));
    assert_eq!(record["data"]["src_port"].as_u64(), Some(50000));
    assert_eq!(record["data"]["dst_addr"].as_str(), Some("127.0.0.5"));
    assert_eq!(record["data"]["dst_port"].as_u64(), Some(9876));
    assert_eq!(record["data"]["bytes"].as_u64(), Some(19));
}

#[test]
fn cli_dispatch_routes_to_the_one_command() {
    let mut log = sample_log();
    let cli = LyrebirdCli {
        command: Commands::File(FileCommand::Create(FileArgs { path: String::from("x") })),
    };
    let report = EffectReport::File { canonical_path: String::from("/tmp/x") };
    cli.dispatch(&mut log, &report).expect("dispatch failed");

    let record = parse_single_line(log.sink.text());
    assert_eq!(record["type"].as_str(), Some("File"));
    assert_eq!(record["data"]["file"].as_str(), Some("/tmp/x"));
}

#[test]
fn cli_dispatch_exec_report() {
    let mut log = sample_log();
    let cli = LyrebirdCli {
        command: Commands::Exec(StartProcess { exe: String::from("true"), args: Vec::new() }),
    };
    let report = EffectReport::Exec { child_pid: 1234 };
    cli.dispatch(&mut log, &report).expect("dispatch failed");

    let record = parse_single_line(log.sink.text());
    assert_eq!(record["type"].as_str(), Some("StartProcess"));
    assert_eq!(record["data"]["pid"].as_u64(), Some(1234));
    assert_eq!(record["data"]["args"].as_array().map(|a| a.len()), Some(0));
}
