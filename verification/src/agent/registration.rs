use vstd::prelude::*;

use crate::agent::command_handler::{command_error, execute_agent_command};
use crate::agent::command_ledger::{
    completed_spec, completion, normalized_result, BeginOrGet, Completion, LedgerRecordView,
};
use crate::agent::frames::{AgentCommandResult, AgentMessage, AgentToHypervisor, Timestamp};
use crate::model::host::HostFacts;
use crate::text::{str_eq, str_to_string, trim_spec};

verus! {

/// A command the control plane sends to the agent.
#[derive(Clone, Debug)]
pub struct HypervisorCommand {
    pub command_id: String,
    pub command_type: String,
    pub payload_json: String,
}

/// What the agent answers about a command.
#[derive(Clone, Debug)]
pub struct CommandReply {
    pub status: String,
    pub result_json: String,
    pub error_message: String,
}

pub struct ReplyView {
    pub status: Seq<char>,
    pub result_json: Seq<char>,
    pub error_message: Seq<char>,
}

impl View for CommandReply {
    type V = ReplyView;

    open spec fn view(&self) -> ReplyView {
        ReplyView {
            status: self.status@,
            result_json: self.result_json@,
            error_message: self.error_message@,
        }
    }
}

/// The answer about a command the ledger already holds: still running, or
/// its stored result and error under `succeeded` or `failed` (any status
/// other than running or succeeded counts as failed).
pub open spec fn reply_for_record(rec: LedgerRecordView) -> ReplyView {
    if rec.status == "running"@ {
        ReplyView { status: "running"@, result_json: "{}"@, error_message: Seq::empty() }
    } else if rec.status == "succeeded"@ {
        ReplyView {
            status: "succeeded"@,
            result_json: rec.result_json,
            error_message: rec.error_message,
        }
    } else {
        ReplyView {
            status: "failed"@,
            result_json: rec.result_json,
            error_message: rec.error_message,
        }
    }
}

/// The answer about a command just executed.
pub open spec fn reply_for_execution(result: Result<Seq<char>, Seq<char>>) -> ReplyView {
    match result {
        Ok(v) => ReplyView { status: "succeeded"@, result_json: v, error_message: Seq::empty() },
        Err(e) => ReplyView { status: "failed"@, result_json: "{}"@, error_message: e },
    }
}

/// The answer about a command whose id came back with another payload.
pub open spec fn mismatch_reply() -> ReplyView {
    ReplyView {
        status: "failed"@,
        result_json: "{}"@,
        error_message: "command_id_payload_mismatch"@,
    }
}

/// How a command is answered, and the completion to record for it when it
/// was executed now.
pub struct CommandOutcome {
    pub reply: CommandReply,
    pub completion: Option<Completion>,
}

/// Handles a command given how its claim on the ledger came out: a new
/// command is executed and its completion recorded; a known one is
/// answered from its record; a mismatched one is refused.
pub fn command_outcome(begin: BeginOrGet, command: &HypervisorCommand) -> (r: CommandOutcome)
    ensures
        match begin {
            BeginOrGet::New(_) => {
                let e = command_error(command.command_type@, command.payload_json@);
                &&& r.reply@ == reply_for_execution(Err(e))
                &&& r.completion matches Some(c) && c.command_id@ == trim_spec(
                    command.command_id@,
                ) && c.status@ == "failed"@ && c.result_json@ == "{}"@ && c.error_message@
                    == trim_spec(e)
            },
            BeginOrGet::Existing(rec) => r.reply@ == reply_for_record(rec@) && r.completion is None,
            BeginOrGet::PayloadMismatch(_) => r.reply@ == mismatch_reply() && r.completion is None,
        },
{
    match begin {
        BeginOrGet::New(_) => {
            match execute_agent_command(command.command_type.as_str(), command.payload_json.as_str()) {
                Ok(value) => {
                    let c = completion(command.command_id.as_str(), "succeeded", value.as_str(), "");
                    CommandOutcome {
                        reply: CommandReply {
                            status: str_to_string("succeeded"),
                            result_json: value,
                            error_message: String::new(),
                        },
                        completion: Some(c),
                    }
                },
                Err(err) => {
                    let c = completion(command.command_id.as_str(), "failed", "{}", err.as_str());
                    proof {
                        reveal_strlit("{}");
                        reveal_strlit("failed");
                        assert(trim_spec("failed"@) == "failed"@);
                        assert(normalized_result("{}"@) == "{}"@) by {
                            assert(trim_spec("{}"@) == "{}"@);
                        }
                    }
                    CommandOutcome {
                        reply: CommandReply {
                            status: str_to_string("failed"),
                            result_json: str_to_string("{}"),
                            error_message: err,
                        },
                        completion: Some(c),
                    }
                },
            }
        },
        BeginOrGet::Existing(rec) => {
            let reply = if str_eq(rec.status.as_str(), "running") {
                CommandReply {
                    status: str_to_string("running"),
                    result_json: str_to_string("{}"),
                    error_message: String::new(),
                }
            } else if str_eq(rec.status.as_str(), "succeeded") {
                CommandReply {
                    status: str_to_string("succeeded"),
                    result_json: rec.result_json,
                    error_message: rec.error_message,
                }
            } else {
                CommandReply {
                    status: str_to_string("failed"),
                    result_json: rec.result_json,
                    error_message: rec.error_message,
                }
            };
            CommandOutcome { reply, completion: None }
        },
        BeginOrGet::PayloadMismatch(_) => CommandOutcome {
            reply: CommandReply {
                status: str_to_string("failed"),
                result_json: str_to_string("{}"),
                error_message: str_to_string("command_id_payload_mismatch"),
            },
            completion: None,
        },
    }
}

/// The frame that reports a command's answer to the control plane.
pub fn command_result_frame(
    facts: &HostFacts,
    stream_id: &str,
    seq: u64,
    command_id: &str,
    reply: CommandReply,
    completed_at: Timestamp,
) -> (f: AgentToHypervisor)
    ensures
        f.stream_id@ == stream_id@,
        f.seq == seq,
        (f.message matches Some(AgentMessage::CommandResult(m)) && m.agent_id@ == facts.agent_id@
            && m.host_id@ == facts.host_id@ && m.command_id@ == command_id@ && m.status@
            == reply.status@ && m.result_json@ == reply.result_json@ && m.error_message@
            == reply.error_message@ && m.completed_at == Some(completed_at)),
{
    AgentToHypervisor {
        stream_id: str_to_string(stream_id),
        seq,
        message: Some(
            AgentMessage::CommandResult(
                AgentCommandResult {
                    agent_id: facts.agent_id.clone(),
                    host_id: facts.host_id.clone(),
                    command_id: str_to_string(command_id),
                    status: reply.status,
                    result_json: reply.result_json,
                    error_message: reply.error_message,
                    completed_at: Some(completed_at),
                },
            ),
        ),
    }
}

/// A command replayed after it completed is answered as its first
/// execution was, up to the normalization the ledger applies: the stored
/// result is `"{}"` when blank and the stored error is trimmed.
pub proof fn law_replay_answers_like_first_execution(
    stored: LedgerRecordView,
    c: Completion,
    result: Result<Seq<char>, Seq<char>>,
)
    requires
        c.command_id@ == stored.command_id,
        c.status@ == reply_for_execution(result).status,
        c.result_json@ == normalized_result(reply_for_execution(result).result_json),
        c.error_message@ == trim_spec(reply_for_execution(result).error_message),
    ensures
        reply_for_record(completed_spec(stored, c)) == (ReplyView {
            status: reply_for_execution(result).status,
            result_json: normalized_result(reply_for_execution(result).result_json),
            error_message: trim_spec(reply_for_execution(result).error_message),
        }),
{
    reveal_strlit("running");
    reveal_strlit("failed");
    reveal_strlit("succeeded");
    assert("failed"@ != "running"@) by {
        assert("failed"@[0] != "running"@[0]);
    }
    assert("succeeded"@ != "running"@) by {
        assert("succeeded"@[0] != "running"@[0]);
    }
    assert("failed"@ != "succeeded"@) by {
        assert("failed"@[0] != "succeeded"@[0]);
    }
}

} // verus!
