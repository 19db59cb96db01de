//! The action log: an append-only writer of structured event records.
//!
//! A `Log` owns its destination sink, the identity resolved once at
//! construction and the invocation command line captured once at
//! construction. Each `record_action` call appends exactly one line:
//! a JSON object with the fixed members `type`, `time`, `pid`, `user`,
//! `cmd` and `data`, terminated by a newline.

use vstd::prelude::*;

use crate::clock;
use crate::clock::rfc3339_text;
use crate::json::push_char;
use crate::json::to_json;
use crate::json::JsonValue;
use crate::json::JsonView;
use crate::json::entries_field;
use crate::json::json_value_view;
use crate::json::json_value_view_entries;
use crate::json::obj_field;
use crate::json::obj_keys;
use crate::json::json_of;
use crate::json::single_line;
use crate::json::str_list_view;
use crate::json::strings_to_json;
use crate::json::lemma_json_of_single_line;
use crate::sink::Sink;
use crate::sink::WriteError;
use vstd::string::StringExecFns;

verus! {

/// Why a `record_action` call failed.
#[derive(Debug)]
pub enum LogError {
    /// The current instant could not be rendered as RFC 3339 text.
    TimestampFormat(time::error::Format),
    /// The sink refused the line.
    SinkWrite(WriteError),
}

pub open spec fn key_type() -> Seq<char> {
    seq!['t', 'y', 'p', 'e']
}

pub open spec fn key_time() -> Seq<char> {
    seq!['t', 'i', 'm', 'e']
}

pub open spec fn key_pid() -> Seq<char> {
    seq!['p', 'i', 'd']
}

pub open spec fn key_user() -> Seq<char> {
    seq!['u', 's', 'e', 'r']
}

pub open spec fn key_cmd() -> Seq<char> {
    seq!['c', 'm', 'd']
}

pub open spec fn key_data() -> Seq<char> {
    seq!['d', 'a', 't', 'a']
}

/// The `user` member of a record: the resolved name, or null when
/// resolution found nobody.
pub open spec fn user_json(user: Option<Seq<char>>) -> JsonView {
    match user {
        Some(u) => JsonView::Str(u),
        None => JsonView::Null,
    }
}

/// The one record shape the log ever writes: the six fixed members in
/// their fixed order.
pub open spec fn record_view(
    kind: Seq<char>,
    stamp: Seq<char>,
    pid: u32,
    user: Option<Seq<char>>,
    cmd: Seq<Seq<char>>,
    data: JsonView,
) -> JsonView {
    JsonView::Obj(
        seq![
            (key_type(), JsonView::Str(kind)),
            (key_time(), JsonView::Str(stamp)),
            (key_pid(), JsonView::UInt(pid as u64)),
            (key_user(), user_json(user)),
            (key_cmd(), JsonView::Arr(str_list_view(cmd))),
            (key_data(), data),
        ],
    )
}

/// The full text one `record_action` call appends: the record object as
/// JSON, then the line terminator.
pub open spec fn record_line(
    kind: Seq<char>,
    stamp: Seq<char>,
    pid: u32,
    user: Option<Seq<char>>,
    cmd: Seq<Seq<char>>,
    data: JsonView,
) -> Seq<char> {
    json_of(record_view(kind, stamp, pid, user, cmd, data)) + seq!['\n']
}

/// The append-only event writer.
pub struct Log<S: Sink> {
    /// The destination, owned exclusively by this log.
    pub sink: S,
    /// The process owner's name, resolved once before construction;
    /// `None` when resolution found no entry.
    pub username: Option<String>,
    /// The invocation command line, captured once at construction.
    pub cmdline: Vec<String>,
    /// The identifier of the emitting process.
    pub pid: u32,
}

impl<S: Sink> Log<S> {
    /// The identity as it appears in every record.
    pub open spec fn user_view(&self) -> Option<Seq<char>> {
        match self.username {
            Some(u) => Some(u@),
            None => None,
        }
    }

    /// The command line as it appears in every record.
    pub open spec fn cmd_view(&self) -> Seq<Seq<char>> {
        self.cmdline.deep_view()
    }

    /// Make a log that appends to `sink`, carrying the resolved
    /// `username` and captured `cmdline` for the rest of its life.
    pub fn new(sink: S, username: Option<String>, cmdline: Vec<String>, pid: u32) -> (r: Log<S>)
        ensures
            r.sink == sink,
            r.username == username,
            r.cmdline == cmdline,
            r.pid == pid,
    {
        Log { sink, username, cmdline, pid }
    }

    /// Append one record of kind `record_type` with payload `data`.
    ///
    /// On success exactly one line has been appended to the sink: the
    /// record built from this log's cached identity and command line, the
    /// process id, the given kind and payload, and a freshly rendered
    /// timestamp. On failure nothing of this log changes except, after a
    /// refused write, whatever partial state the sink kept; a sink that
    /// cannot fail only leaves the timestamp to fail.
    pub fn record_action(&mut self, record_type: &str, data: JsonValue) -> (r: Result<
        (),
        LogError,
    >)
        ensures
            final(self).username == old(self).username,
            final(self).cmdline == old(self).cmdline,
            final(self).pid == old(self).pid,
            final(self).sink.infallible() == old(self).sink.infallible(),
            match r {
                Ok(()) => exists|stamp: Seq<char>|
                    #[trigger] rfc3339_text(stamp) && final(self).sink.contents() == old(
                        self,
                    ).sink.contents() + record_line(
                        record_type@,
                        stamp,
                        old(self).pid,
                        old(self).user_view(),
                        old(self).cmd_view(),
                        json_value_view(data),
                    ),
                Err(LogError::TimestampFormat(_)) => final(self).sink == old(self).sink,
                Err(LogError::SinkWrite(_)) => !old(self).sink.infallible(),
            },
    {
        let instant = clock::now_utc();
        match clock::format_rfc3339(instant) {
            Ok(stamp) => self.record_with_stamp(record_type, stamp.as_str(), data),
            Err(e) => Err(LogError::TimestampFormat(e)),
        }
    }

    /// Append one record of kind `record_type` with payload `data`, dated
    /// with the given timestamp text.
    ///
    /// With the timestamp supplied, everything about the appended line is
    /// pinned down: on success the sink grows by exactly
    /// `record_line(record_type@, stamp@, ..)`, and against a sink that
    /// cannot fail the call always succeeds.
    pub fn record_with_stamp(&mut self, record_type: &str, stamp: &str, data: JsonValue) -> (r:
        Result<(), LogError>)
        ensures
            final(self).username == old(self).username,
            final(self).cmdline == old(self).cmdline,
            final(self).pid == old(self).pid,
            final(self).sink.infallible() == old(self).sink.infallible(),
            old(self).sink.infallible() ==> r is Ok,
            match r {
                Ok(()) => final(self).sink.contents() == old(self).sink.contents() + record_line(
                    record_type@,
                    stamp@,
                    old(self).pid,
                    old(self).user_view(),
                    old(self).cmd_view(),
                    json_value_view(data),
                ),
                Err(LogError::SinkWrite(_)) => !old(self).sink.infallible(),
                Err(LogError::TimestampFormat(_)) => false,
            },
    {
        let ghost stamp_view = stamp@;

        let cmd_vals = strings_to_json(&self.cmdline);

        let user_val = match &self.username {
            Some(u) => JsonValue::Str(u.clone()),
            None => JsonValue::Null,
        };

        let member_type = (String::from_str("type"), JsonValue::Str(
            String::from_str(record_type),
        ));
        let member_time = (String::from_str("time"), JsonValue::Str(String::from_str(stamp)));
        let member_pid = (String::from_str("pid"), JsonValue::UInt(self.pid as u64));
        let member_user = (String::from_str("user"), user_val);
        let member_cmd = (String::from_str("cmd"), JsonValue::Arr(cmd_vals));
        let member_data = (String::from_str("data"), data);
        let ghost members = seq![member_type, member_time, member_pid, member_user, member_cmd,
            member_data];

        let mut entries: Vec<(String, JsonValue)> = Vec::new();
        entries.push(member_type);
        entries.push(member_time);
        entries.push(member_pid);
        entries.push(member_user);
        entries.push(member_cmd);
        entries.push(member_data);
        proof {
            assert(entries@ =~= members);
        }
        let record = JsonValue::Obj(entries);
        proof {
            reveal_strlit("type");
            reveal_strlit("time");
            reveal_strlit("pid");
            reveal_strlit("user");
            reveal_strlit("cmd");
            reveal_strlit("data");
            let d1 = members.drop_first();
            let d2 = d1.drop_first();
            let d3 = d2.drop_first();
            let d4 = d3.drop_first();
            let d5 = d4.drop_first();
            let d6 = d5.drop_first();
            assert(d6.len() == 0);
            assert(json_value_view_entries(d6) =~= Seq::<(Seq<char>, JsonView)>::empty());
            assert(json_value_view_entries(d5) =~= seq![
                (member_data.0@, json_value_view(member_data.1)),
            ]);
            assert(json_value_view_entries(d4) =~= seq![
                (member_cmd.0@, json_value_view(member_cmd.1)),
                (member_data.0@, json_value_view(member_data.1)),
            ]);
            assert(json_value_view_entries(d3) =~= seq![
                (member_user.0@, json_value_view(member_user.1)),
                (member_cmd.0@, json_value_view(member_cmd.1)),
                (member_data.0@, json_value_view(member_data.1)),
            ]);
            assert(json_value_view_entries(d2) =~= seq![
                (member_pid.0@, json_value_view(member_pid.1)),
                (member_user.0@, json_value_view(member_user.1)),
                (member_cmd.0@, json_value_view(member_cmd.1)),
                (member_data.0@, json_value_view(member_data.1)),
            ]);
            assert(json_value_view_entries(d1) =~= seq![
                (member_time.0@, json_value_view(member_time.1)),
                (member_pid.0@, json_value_view(member_pid.1)),
                (member_user.0@, json_value_view(member_user.1)),
                (member_cmd.0@, json_value_view(member_cmd.1)),
                (member_data.0@, json_value_view(member_data.1)),
            ]);
            assert(json_value_view_entries(members) =~= seq![
                (member_type.0@, json_value_view(member_type.1)),
                (member_time.0@, json_value_view(member_time.1)),
                (member_pid.0@, json_value_view(member_pid.1)),
                (member_user.0@, json_value_view(member_user.1)),
                (member_cmd.0@, json_value_view(member_cmd.1)),
                (member_data.0@, json_value_view(member_data.1)),
            ]);
            assert(member_type.0@ =~= key_type());
            assert(member_time.0@ =~= key_time());
            assert(member_pid.0@ =~= key_pid());
            assert(member_user.0@ =~= key_user());
            assert(member_cmd.0@ =~= key_cmd());
            assert(member_data.0@ =~= key_data());
            assert(json_value_view(member_user.1) == user_json(self.user_view()));
            assert(json_value_view(member_cmd.1) =~~= JsonView::Arr(
                str_list_view(self.cmd_view()),
            ));
            assert(json_value_view(record) =~~= record_view(
                record_type@,
                stamp_view,
                self.pid,
                self.user_view(),
                self.cmd_view(),
                json_value_view(data),
            ));
        }

        let mut line = to_json(&record);
        push_char(&mut line, '\n');

        match self.sink.write_text(line.as_str()) {
            Ok(()) => Ok(()),
            Err(w) => Err(LogError::SinkWrite(w)),
        }
    }
}


/// The six member keys of a record, in their fixed order.
pub open spec fn record_keys() -> Seq<Seq<char>> {
    seq![key_type(), key_time(), key_pid(), key_user(), key_cmd(), key_data()]
}

proof fn lemma_record_user_field(
    kind: Seq<char>,
    stamp: Seq<char>,
    pid: u32,
    user: Option<Seq<char>>,
    cmd: Seq<Seq<char>>,
    data: JsonView,
)
    ensures
        obj_field(record_view(kind, stamp, pid, user, cmd, data), key_user()) == Some(
            user_json(user),
        ),
{
    let k = key_user();
    let m = seq![
        (key_type(), JsonView::Str(kind)),
        (key_time(), JsonView::Str(stamp)),
        (key_pid(), JsonView::UInt(pid as u64)),
        (key_user(), user_json(user)),
        (key_cmd(), JsonView::Arr(str_list_view(cmd))),
        (key_data(), data),
    ];
    let d1 = m.drop_first();
    let d2 = d1.drop_first();
    let d3 = d2.drop_first();
    assert(m[0].0[0] != k[0]);
    assert(d1[0].0 == key_time() && key_time()[1] != k[1]);
    assert(d2[0].0 == key_pid() && key_pid().len() != k.len());
    assert(d3[0].0 == k);
    assert(entries_field(d3, k) == Some(user_json(user)));
    assert(entries_field(d2, k) == entries_field(d2.drop_first(), k));
    assert(entries_field(d1, k) == entries_field(d1.drop_first(), k));
    assert(entries_field(m, k) == entries_field(m.drop_first(), k));
}

proof fn lemma_record_cmd_field(
    kind: Seq<char>,
    stamp: Seq<char>,
    pid: u32,
    user: Option<Seq<char>>,
    cmd: Seq<Seq<char>>,
    data: JsonView,
)
    ensures
        obj_field(record_view(kind, stamp, pid, user, cmd, data), key_cmd()) == Some(
            JsonView::Arr(str_list_view(cmd)),
        ),
{
    let k = key_cmd();
    let m = seq![
        (key_type(), JsonView::Str(kind)),
        (key_time(), JsonView::Str(stamp)),
        (key_pid(), JsonView::UInt(pid as u64)),
        (key_user(), user_json(user)),
        (key_cmd(), JsonView::Arr(str_list_view(cmd))),
        (key_data(), data),
    ];
    let d1 = m.drop_first();
    let d2 = d1.drop_first();
    let d3 = d2.drop_first();
    let d4 = d3.drop_first();
    assert(m[0].0.len() != k.len());
    assert(d1[0].0.len() != k.len());
    assert(d2[0].0 == key_pid() && key_pid()[0] != k[0]);
    assert(d3[0].0 == key_user() && key_user()[0] != k[0]);
    assert(d4[0].0 == k);
    assert(entries_field(d4, k) == Some(JsonView::Arr(str_list_view(cmd))));
    assert(entries_field(d3, k) == entries_field(d3.drop_first(), k));
    assert(entries_field(d2, k) == entries_field(d2.drop_first(), k));
    assert(entries_field(d1, k) == entries_field(d1.drop_first(), k));
    assert(entries_field(m, k) == entries_field(m.drop_first(), k));
}

/// Law: the `user` member of a record is exactly the identity the log was
/// built with — the name as a JSON string, or JSON null when resolution
/// found nobody — whatever the record's kind, timestamp, process id,
/// command line or payload. Any two records built over the same cached
/// identity therefore carry the same `user` member: the identity is
/// resolved once and reused for the process's whole life.
pub proof fn lemma_records_share_user(
    kind1: Seq<char>,
    stamp1: Seq<char>,
    pid1: u32,
    cmd1: Seq<Seq<char>>,
    data1: JsonView,
    kind2: Seq<char>,
    stamp2: Seq<char>,
    pid2: u32,
    cmd2: Seq<Seq<char>>,
    data2: JsonView,
    user: Option<Seq<char>>,
)
    ensures
        obj_field(record_view(kind1, stamp1, pid1, user, cmd1, data1), key_user()) == Some(
            user_json(user),
        ),
        obj_field(record_view(kind1, stamp1, pid1, user, cmd1, data1), key_user()) == obj_field(
            record_view(kind2, stamp2, pid2, user, cmd2, data2),
            key_user(),
        ),
{
    lemma_record_user_field(kind1, stamp1, pid1, user, cmd1, data1);
    lemma_record_user_field(kind2, stamp2, pid2, user, cmd2, data2);
}

/// Law: the `cmd` member of a record is exactly the command line the log
/// captured at construction, as a JSON array of strings in order, whatever
/// the record's kind, timestamp, process id, identity or payload. Any two
/// records built over the same captured command line therefore carry the
/// same `cmd` member: the invocation is captured once and reused.
pub proof fn lemma_records_share_cmd(
    kind1: Seq<char>,
    stamp1: Seq<char>,
    pid1: u32,
    user1: Option<Seq<char>>,
    data1: JsonView,
    kind2: Seq<char>,
    stamp2: Seq<char>,
    pid2: u32,
    user2: Option<Seq<char>>,
    data2: JsonView,
    cmd: Seq<Seq<char>>,
)
    ensures
        obj_field(record_view(kind1, stamp1, pid1, user1, cmd, data1), key_cmd()) == Some(
            JsonView::Arr(str_list_view(cmd)),
        ),
        obj_field(record_view(kind1, stamp1, pid1, user1, cmd, data1), key_cmd()) == obj_field(
            record_view(kind2, stamp2, pid2, user2, cmd, data2),
            key_cmd(),
        ),
{
    lemma_record_cmd_field(kind1, stamp1, pid1, user1, cmd, data1);
    lemma_record_cmd_field(kind2, stamp2, pid2, user2, cmd, data2);
}

/// Law: every record object carries exactly the six documented members —
/// `type`, `time`, `pid`, `user`, `cmd`, `data` — in that order, whatever
/// went into it.
pub proof fn lemma_record_fixed_keys(
    kind: Seq<char>,
    stamp: Seq<char>,
    pid: u32,
    user: Option<Seq<char>>,
    cmd: Seq<Seq<char>>,
    data: JsonView,
)
    ensures
        obj_keys(record_view(kind, stamp, pid, user, cmd, data)) == record_keys(),
{
    assert(obj_keys(record_view(kind, stamp, pid, user, cmd, data)) =~= record_keys());
}

/// Law: a record line is exactly one line — its last character is the
/// newline terminator and no character before it is a newline. Successive
/// appends therefore put one record on each line, in call order.
pub proof fn lemma_record_line_single(
    kind: Seq<char>,
    stamp: Seq<char>,
    pid: u32,
    user: Option<Seq<char>>,
    cmd: Seq<Seq<char>>,
    data: JsonView,
)
    ensures
        ({
            let line = record_line(kind, stamp, pid, user, cmd, data);
            line.len() > 0 && line[line.len() - 1] == '\n' && forall|i: int|
                0 <= i < line.len() - 1 ==> line[i] != '\n'
        }),
{
    lemma_json_of_single_line(record_view(kind, stamp, pid, user, cmd, data));
    assert(single_line(json_of(record_view(kind, stamp, pid, user, cmd, data))));
}

} // verus!
