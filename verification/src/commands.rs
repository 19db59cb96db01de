//! The command layer's side of the log's contract.
//!
//! Each command family — file operations, process start, network send —
//! performs an operating-system effect and then records it. The effects
//! themselves are the hosting process's work; what the handlers decide is
//! which kind tag and which payload shape describe an effect, and that
//! decision is built and recorded here: a dispatcher takes the command and
//! what the host observed while performing its effect, and appends the one
//! record that describes it.

use vstd::prelude::*;

use crate::clock::rfc3339_text;
use crate::json::json_value_view;
use crate::json::json_value_view_entries;
use crate::json::lemma_view_entries_index;
use crate::json::str_list_view;
use crate::json::strings_to_json;
use crate::json::JsonValue;
use crate::json::JsonView;
use crate::log::record_line;
use crate::log::Log;
use crate::log::LogError;
use crate::sink::Sink;
use vstd::string::StringExecFns;

verus! {

/// The kind tag of file records.
pub open spec fn kind_file() -> Seq<char> {
    seq!['F', 'i', 'l', 'e']
}

/// The kind tag of process-start records.
pub open spec fn kind_start_process() -> Seq<char> {
    seq!['S', 't', 'a', 'r', 't', 'P', 'r', 'o', 'c', 'e', 's', 's']
}

/// The kind tag of network-send records.
pub open spec fn kind_net_send() -> Seq<char> {
    seq!['N', 'e', 't', 'S', 'e', 'n', 'd']
}

/// The payload of a file record: the action performed and the path it
/// touched.
pub open spec fn file_payload_view(action: Seq<char>, file: Seq<char>) -> JsonView {
    JsonView::Obj(
        seq![
            (seq!['a', 'c', 't', 'i', 'o', 'n'], JsonView::Str(action)),
            (seq!['f', 'i', 'l', 'e'], JsonView::Str(file)),
        ],
    )
}

/// The payload of a process-start record: the executable, its arguments
/// and the child's process id.
pub open spec fn exec_payload_view(cmd: Seq<char>, args: Seq<Seq<char>>, pid: u32) -> JsonView {
    JsonView::Obj(
        seq![
            (seq!['c', 'm', 'd'], JsonView::Str(cmd)),
            (seq!['a', 'r', 'g', 's'], JsonView::Arr(str_list_view(args))),
            (seq!['p', 'i', 'd'], JsonView::UInt(pid as u64)),
        ],
    )
}

/// The payload of a network-send record: protocol, both endpoints and how
/// many bytes went out.
pub open spec fn net_payload_view(
    proto: Seq<char>,
    src_addr: Seq<char>,
    src_port: u16,
    dst_addr: Seq<char>,
    dst_port: u16,
    bytes: usize,
) -> JsonView {
    JsonView::Obj(
        seq![
            (seq!['p', 'r', 'o', 't', 'o'], JsonView::Str(proto)),
            (seq!['s', 'r', 'c', '_', 'a', 'd', 'd', 'r'], JsonView::Str(src_addr)),
            (seq!['s', 'r', 'c', '_', 'p', 'o', 'r', 't'], JsonView::UInt(src_port as u64)),
            (seq!['d', 's', 't', '_', 'a', 'd', 'd', 'r'], JsonView::Str(dst_addr)),
            (seq!['d', 's', 't', '_', 'p', 'o', 'r', 't'], JsonView::UInt(dst_port as u64)),
            (seq!['b', 'y', 't', 'e', 's'], JsonView::UInt(bytes as u64)),
        ],
    )
}

/// Path argument of the file commands.
pub struct FileArgs {
    /// Path to the file.
    pub path: String,
}

/// The file operations the host can perform and record.
pub enum FileCommand {
    /// Create a file.
    Create(FileArgs),
    /// Delete a file.
    Delete(FileArgs),
    /// Modify a file.
    Modify(FileArgs),
}

impl FileCommand {
    /// The action tag this command records.
    pub open spec fn action_view(&self) -> Seq<char> {
        match self {
            FileCommand::Create(_) => seq!['c', 'r', 'e', 'a', 't', 'e'],
            FileCommand::Delete(_) => seq!['d', 'e', 'l', 'e', 't', 'e'],
            FileCommand::Modify(_) => seq!['m', 'o', 'd', 'i', 'f', 'y'],
        }
    }

    /// Record this command's effect on `path` (as the host canonicalized
    /// it): one `File` record whose payload names the action and the path.
    pub fn dispatch<S: Sink>(&self, log: &mut Log<S>, path: &str) -> (r: Result<(), LogError>)
        ensures
            final(log).username == old(log).username,
            final(log).cmdline == old(log).cmdline,
            final(log).pid == old(log).pid,
            final(log).sink.infallible() == old(log).sink.infallible(),
            match r {
                Ok(()) => exists|stamp: Seq<char>|
                    #[trigger] rfc3339_text(stamp) && final(log).sink.contents() == old(
                        log,
                    ).sink.contents() + record_line(
                        kind_file(),
                        stamp,
                        old(log).pid,
                        old(log).user_view(),
                        old(log).cmd_view(),
                        file_payload_view(self.action_view(), path@),
                    ),
                Err(LogError::TimestampFormat(_)) => final(log).sink == old(log).sink,
                Err(LogError::SinkWrite(_)) => !old(log).sink.infallible(),
            },
    {
        let action = match self {
            FileCommand::Create(_) => "create",
            FileCommand::Delete(_) => "delete",
            FileCommand::Modify(_) => "modify",
        };
        proof {
            reveal_strlit("create");
            reveal_strlit("delete");
            reveal_strlit("modify");
            assert(action@ =~= self.action_view());
        }
        let payload = file_payload(action, path);
        proof {
            reveal_strlit("File");
            assert("File"@ =~= kind_file());
        }
        log.record_action("File", payload)
    }
}

/// Builds the payload of a file record.
fn file_payload(action: &str, path: &str) -> (r: JsonValue)
    ensures
        json_value_view(r) == file_payload_view(action@, path@),
{
    let member_action = (String::from_str("action"), JsonValue::Str(String::from_str(action)));
    let member_file = (String::from_str("file"), JsonValue::Str(String::from_str(path)));
    let mut entries: Vec<(String, JsonValue)> = Vec::new();
    entries.push(member_action);
    entries.push(member_file);
    proof {
        reveal_strlit("action");
        reveal_strlit("file");
        assert(member_action.0@ =~= seq!['a', 'c', 't', 'i', 'o', 'n']);
        assert(member_file.0@ =~= seq!['f', 'i', 'l', 'e']);
        lemma_view_entries_index(entries@);
        assert(json_value_view_entries(entries@) =~~= file_payload_view(action@, path@)->Obj_0);
    }
    JsonValue::Obj(entries)
}

/// Command-line shape of a process start: the program and its arguments.
pub struct StartProcess {
    /// Name of the program to start.
    pub exe: String,
    /// Arguments to be passed.
    pub args: Vec<String>,
}

impl StartProcess {
    /// Record that the child with id `child_pid` was started from this
    /// command: one `StartProcess` record whose payload names the
    /// executable, its arguments and the child.
    pub fn record_start<S: Sink>(&self, log: &mut Log<S>, child_pid: u32) -> (r: Result<
        (),
        LogError,
    >)
        ensures
            final(log).username == old(log).username,
            final(log).cmdline == old(log).cmdline,
            final(log).pid == old(log).pid,
            final(log).sink.infallible() == old(log).sink.infallible(),
            match r {
                Ok(()) => exists|stamp: Seq<char>|
                    #[trigger] rfc3339_text(stamp) && final(log).sink.contents() == old(
                        log,
                    ).sink.contents() + record_line(
                        kind_start_process(),
                        stamp,
                        old(log).pid,
                        old(log).user_view(),
                        old(log).cmd_view(),
                        exec_payload_view(self.exe@, self.args.deep_view(), child_pid),
                    ),
                Err(LogError::TimestampFormat(_)) => final(log).sink == old(log).sink,
                Err(LogError::SinkWrite(_)) => !old(log).sink.infallible(),
            },
    {
        let member_cmd = (String::from_str("cmd"), JsonValue::Str(self.exe.clone()));
        let member_args = (String::from_str("args"), JsonValue::Arr(strings_to_json(&self.args)));
        let member_pid = (String::from_str("pid"), JsonValue::UInt(child_pid as u64));
        let mut entries: Vec<(String, JsonValue)> = Vec::new();
        entries.push(member_cmd);
        entries.push(member_args);
        entries.push(member_pid);
        proof {
            reveal_strlit("cmd");
            reveal_strlit("args");
            reveal_strlit("pid");
            assert(member_cmd.0@ =~= seq!['c', 'm', 'd']);
            assert(member_args.0@ =~= seq!['a', 'r', 'g', 's']);
            assert(member_pid.0@ =~= seq!['p', 'i', 'd']);
            lemma_view_entries_index(entries@);
            assert(json_value_view_entries(entries@) =~~= exec_payload_view(
                self.exe@,
                self.args.deep_view(),
                child_pid,
            )->Obj_0);
        }
        let payload = JsonValue::Obj(entries);
        proof {
            reveal_strlit("StartProcess");
            assert("StartProcess"@ =~= kind_start_process());
        }
        log.record_action("StartProcess", payload)
    }
}

/// What the host observed while sending: how many bytes went out, and the
/// two endpoints of the connection.
pub struct NetSendReport {
    /// Bytes actually written to the peer.
    pub bytes: usize,
    /// Local address, in textual form.
    pub src_addr: String,
    /// Local port.
    pub src_port: u16,
    /// Peer address, in textual form.
    pub dst_addr: String,
    /// Peer port.
    pub dst_port: u16,
}

/// Command-line shape of a TCP send.
pub struct TcpMessage {
    /// Destination address.
    pub dest: String,
    /// What to send to the destination.
    pub data: String,
    /// Connect timeout in seconds.
    pub timeout: u64,
}

/// The network sends the host can perform and record.
pub enum NetCommands {
    /// Send data to an address over TCP.
    Tcp(TcpMessage),
}

impl NetCommands {
    /// The protocol tag this command records.
    pub open spec fn proto_view(&self) -> Seq<char> {
        match self {
            NetCommands::Tcp(_) => seq!['T', 'C', 'P'],
        }
    }

    /// Record this command's completed send: one `NetSend` record whose
    /// payload names the protocol, the endpoints and the byte count the
    /// host reported.
    pub fn dispatch<S: Sink>(&self, log: &mut Log<S>, report: &NetSendReport) -> (r: Result<
        (),
        LogError,
    >)
        ensures
            final(log).username == old(log).username,
            final(log).cmdline == old(log).cmdline,
            final(log).pid == old(log).pid,
            final(log).sink.infallible() == old(log).sink.infallible(),
            match r {
                Ok(()) => exists|stamp: Seq<char>|
                    #[trigger] rfc3339_text(stamp) && final(log).sink.contents() == old(
                        log,
                    ).sink.contents() + record_line(
                        kind_net_send(),
                        stamp,
                        old(log).pid,
                        old(log).user_view(),
                        old(log).cmd_view(),
                        net_payload_view(
                            self.proto_view(),
                            report.src_addr@,
                            report.src_port,
                            report.dst_addr@,
                            report.dst_port,
                            report.bytes,
                        ),
                    ),
                Err(LogError::TimestampFormat(_)) => final(log).sink == old(log).sink,
                Err(LogError::SinkWrite(_)) => !old(log).sink.infallible(),
            },
    {
        let proto = match self {
            NetCommands::Tcp(_) => "TCP",
        };
        proof {
            reveal_strlit("TCP");
            assert(proto@ =~= self.proto_view());
        }
        let member_proto = (String::from_str("proto"), JsonValue::Str(String::from_str(proto)));
        let member_src_addr = (String::from_str("src_addr"), JsonValue::Str(
            report.src_addr.clone(),
        ));
        let member_src_port = (String::from_str("src_port"), JsonValue::UInt(
            report.src_port as u64,
        ));
        let member_dst_addr = (String::from_str("dst_addr"), JsonValue::Str(
            report.dst_addr.clone(),
        ));
        let member_dst_port = (String::from_str("dst_port"), JsonValue::UInt(
            report.dst_port as u64,
        ));
        let member_bytes = (String::from_str("bytes"), JsonValue::UInt(report.bytes as u64));
        let mut entries: Vec<(String, JsonValue)> = Vec::new();
        entries.push(member_proto);
        entries.push(member_src_addr);
        entries.push(member_src_port);
        entries.push(member_dst_addr);
        entries.push(member_dst_port);
        entries.push(member_bytes);
        proof {
            reveal_strlit("proto");
            reveal_strlit("src_addr");
            reveal_strlit("src_port");
            reveal_strlit("dst_addr");
            reveal_strlit("dst_port");
            reveal_strlit("bytes");
            assert(member_proto.0@ =~= seq!['p', 'r', 'o', 't', 'o']);
            assert(member_src_addr.0@ =~= seq!['s', 'r', 'c', '_', 'a', 'd', 'd', 'r']);
            assert(member_src_port.0@ =~= seq!['s', 'r', 'c', '_', 'p', 'o', 'r', 't']);
            assert(member_dst_addr.0@ =~= seq!['d', 's', 't', '_', 'a', 'd', 'd', 'r']);
            assert(member_dst_port.0@ =~= seq!['d', 's', 't', '_', 'p', 'o', 'r', 't']);
            assert(member_bytes.0@ =~= seq!['b', 'y', 't', 'e', 's']);
            lemma_view_entries_index(entries@);
            assert(json_value_view_entries(entries@) =~~= net_payload_view(
                self.proto_view(),
                report.src_addr@,
                report.src_port,
                report.dst_addr@,
                report.dst_port,
                report.bytes,
            )->Obj_0);
        }
        let payload = JsonValue::Obj(entries);
        proof {
            reveal_strlit("NetSend");
            assert("NetSend"@ =~= kind_net_send());
        }
        log.record_action("NetSend", payload)
    }
}

/// The whole command line: exactly one command.
pub struct LyrebirdCli {
    /// The command to perform and record.
    pub command: Commands,
}

/// The commands the program offers.
pub enum Commands {
    /// File operations.
    File(FileCommand),
    /// Start a process.
    Exec(StartProcess),
    /// Send data over the network.
    NetSend(NetCommands),
}

/// What the host observed while performing a command's effect; it must
/// answer the command that was dispatched.
pub enum EffectReport {
    /// The file operation succeeded on this path, as canonicalized by the
    /// host.
    File {
        /// The canonical path the operation touched.
        canonical_path: String,
    },
    /// The child process started, with this id.
    Exec {
        /// The child's process id.
        child_pid: u32,
    },
    /// The network send completed.
    Net(NetSendReport),
}

/// Whether a report answers the command that was performed.
pub open spec fn report_answers(command: Commands, report: EffectReport) -> bool {
    match command {
        Commands::File(_) => report is File,
        Commands::Exec(_) => report is Exec,
        Commands::NetSend(_) => report is Net,
    }
}

/// The kind tag the dispatched command records.
pub open spec fn dispatch_kind(command: Commands) -> Seq<char> {
    match command {
        Commands::File(_) => kind_file(),
        Commands::Exec(_) => kind_start_process(),
        Commands::NetSend(_) => kind_net_send(),
    }
}

/// The payload the dispatched command records, given the host's report.
pub open spec fn dispatch_payload(command: Commands, report: EffectReport) -> JsonView {
    match command {
        Commands::File(file_cmd) => match report {
            EffectReport::File { canonical_path } => file_payload_view(
                file_cmd.action_view(),
                canonical_path@,
            ),
            _ => JsonView::Null,
        },
        Commands::Exec(start) => match report {
            EffectReport::Exec { child_pid } => exec_payload_view(
                start.exe@,
                start.args.deep_view(),
                child_pid,
            ),
            _ => JsonView::Null,
        },
        Commands::NetSend(net_cmd) => match report {
            EffectReport::Net(net_report) => net_payload_view(
                net_cmd.proto_view(),
                net_report.src_addr@,
                net_report.src_port,
                net_report.dst_addr@,
                net_report.dst_port,
                net_report.bytes,
            ),
            _ => JsonView::Null,
        },
    }
}

impl LyrebirdCli {
    /// Record the one command's effect, as the host reported it: one
    /// record whose kind and payload are decided by the command.
    pub fn dispatch<S: Sink>(&self, log: &mut Log<S>, report: &EffectReport) -> (r: Result<
        (),
        LogError,
    >)
        requires
            report_answers(self.command, *report),
        ensures
            final(log).username == old(log).username,
            final(log).cmdline == old(log).cmdline,
            final(log).pid == old(log).pid,
            final(log).sink.infallible() == old(log).sink.infallible(),
            match r {
                Ok(()) => exists|stamp: Seq<char>|
                    #[trigger] rfc3339_text(stamp) && final(log).sink.contents() == old(
                        log,
                    ).sink.contents() + record_line(
                        dispatch_kind(self.command),
                        stamp,
                        old(log).pid,
                        old(log).user_view(),
                        old(log).cmd_view(),
                        dispatch_payload(self.command, *report),
                    ),
                Err(LogError::TimestampFormat(_)) => final(log).sink == old(log).sink,
                Err(LogError::SinkWrite(_)) => !old(log).sink.infallible(),
            },
    {
        match (&self.command, report) {
            (Commands::File(file_cmd), EffectReport::File { canonical_path }) => {
                file_cmd.dispatch(log, canonical_path.as_str())
            },
            (Commands::Exec(start), EffectReport::Exec { child_pid }) => {
                start.record_start(log, *child_pid)
            },
            (Commands::NetSend(net_cmd), EffectReport::Net(net_report)) => {
                net_cmd.dispatch(log, net_report)
            },
            _ => {
                proof {
                    assert(false);
                }
                Ok(())
            },
        }
    }
}

} // verus!
