//! Helpers for building and trimming tasks, text artifacts and message text,
//! and for matching output modalities.

use vstd::prelude::*;
use crate::types::artifact::{Artifact, ArtifactView};
use crate::types::event::TaskArtifactUpdateEvent;
use crate::types::message::{Message, MessageView, texts_of, join};
use crate::types::params::MessageSendParams;
use crate::types::part::{Part, PartView};
use crate::types::task::{Task, TaskState, TaskStatus, TaskView, apply_artifact, keep_last};

verus! {

/// A random UUID (version 4) in text form.
pub fn generate_id() -> (r: String)
    ensures
        crate::external::is_uuid_text_of_version(r@, '4'),
{
    crate::external::new_uuid_v4_text()
}

/// The current time in RFC 3339 form.
pub fn now_iso8601() -> (r: String)
    ensures
        crate::external::is_utc_rfc3339_text(r@),
{
    crate::external::now_rfc3339()
}

/// A new submitted task for the message of a send: a fresh task id, the
/// message's context id or a fresh one, and the message as its history.
pub fn create_task_obj(params: &MessageSendParams) -> (r: Task)
    ensures
        crate::external::is_uuid_text_of_version(r.id@, '4'),
        match params.message.context_id {
            Some(c) => r.context_id@ == c@,
            None => crate::external::is_uuid_text_of_version(r.context_id@, '4'),
        },
        r.status.state == TaskState::Submitted,
        r.status.message is None,
        r.history.deep_view() == seq![params.message.deep_view()],
        r.artifacts@.len() == 0,
        r.metadata is None,
{
    let context_id = match &params.message.context_id {
        Some(c) => c.clone(),
        None => generate_id(),
    };
    let id = generate_id();
    Task::new_submitted(id.as_str(), context_id.as_str(), params.message.clone())
}

/// Applies an artifact update to a task: without `append` the artifact
/// replaces the one with its id or is added; with `append` its parts go to
/// the artifact with its id, and nothing changes when there is none.
pub fn append_artifact_to_task(task: &mut Task, event: &TaskArtifactUpdateEvent)
    ensures
        final(task).deep_view() == (TaskView {
            artifacts: apply_artifact(old(task).artifacts.deep_view(), event.artifact.deep_view(), event.append),
            ..old(task).deep_view()
        }),
{
    task.apply_artifact_update(event);
}

/// An artifact with the given id holding one text part.
pub fn build_text_artifact(text: &str, artifact_id: &str) -> (r: Artifact)
    ensures
        r.deep_view() == (ArtifactView {
            artifact_id: artifact_id@,
            name: None,
            description: None,
            parts: seq![Part::text_view(text@)],
            metadata: None,
            extensions: Seq::empty(),
        }),
{
    let mut parts: Vec<Part> = Vec::new();
    parts.push(Part::text(text));
    assert(parts.deep_view() =~= seq![Part::text_view(text@)]);
    Artifact::new(artifact_id, parts)
}

/// Whether a client's output modes can be served: when either side lists
/// none, or when they share one.
pub open spec fn modalities_compatible(server: Option<Seq<Seq<char>>>, client: Option<Seq<Seq<char>>>) -> bool {
    match client {
        None => true,
        Some(c) => c.len() == 0 || match server {
            None => true,
            Some(s) => s.len() == 0 || exists|i: int, j: int|
                0 <= i < c.len() && 0 <= j < s.len() && c[i] == s[j],
        },
    }
}

/// The text of each string in a slice.
pub open spec fn texts(v: Seq<String>) -> Seq<Seq<char>> {
    v.map_values(|s: String| s@)
}

/// Whether the server and client output modalities are compatible.
pub fn are_modalities_compatible(server_output_modes: Option<&[String]>, client_output_modes: Option<&[String]>) -> (r: bool)
    ensures
        r == modalities_compatible(
            match server_output_modes {
                Some(s) => Some(texts(s@)),
                None => None,
            },
            match client_output_modes {
                Some(c) => Some(texts(c@)),
                None => None,
            },
        ),
{
    let client = match client_output_modes {
        None => return true,
        Some(c) => c,
    };
    if client.len() == 0 {
        return true;
    }
    let server = match server_output_modes {
        None => return true,
        Some(s) => s,
    };
    if server.len() == 0 {
        return true;
    }
    let ghost cs = texts(client@);
    let ghost ss = texts(server@);
    let mut i: usize = 0;
    while i < client.len()
        invariant
            i <= client.len(),
            client_output_modes == Some(client),
            server_output_modes == Some(server),
            client.len() > 0,
            server.len() > 0,
            cs == texts(client@),
            ss == texts(server@),
            forall|a: int, b: int| 0 <= a < i && 0 <= b < ss.len() ==> cs[a] != ss[b],
        decreases client.len() - i,
    {
        let mut j: usize = 0;
        while j < server.len()
            invariant
                i < client.len(),
                j <= server.len(),
                client_output_modes == Some(client),
                server_output_modes == Some(server),
                client.len() > 0,
                server.len() > 0,
                cs == texts(client@),
                ss == texts(server@),
                forall|b: int| 0 <= b < j ==> cs[i as int] != ss[b],
            decreases server.len() - j,
        {
            if crate::text::str_eq(client[i].as_str(), server[j].as_str()) {
                assert(cs[i as int] == ss[j as int]);
                assert(exists|a: int, b: int| 0 <= a < cs.len() && 0 <= b < ss.len() && cs[a] == ss[b]);
                return true;
            }
            j = j + 1;
        }
        i = i + 1;
    }
    false
}

/// Limits a task's history to its last `history_length` messages (none for
/// a negative length); without a limit the task is unchanged.
pub fn apply_history_length(task: Task, history_length: Option<i32>) -> (r: Task)
    ensures
        r.deep_view() == (TaskView {
            history: match history_length {
                Some(n) => keep_last(task.history.deep_view(), if n < 0 { 0 } else { n as nat }),
                None => task.history.deep_view(),
            },
            ..task.deep_view()
        }),
{
    let mut t = task;
    match history_length {
        Some(n) => {
            let len: usize = if n < 0 { 0 } else { n as usize };
            t.truncate_history(len);
        }
        None => {}
    }
    t
}

/// The text parts of a message, joined with `delimiter`.
pub fn get_message_text(message: &Message, delimiter: &str) -> (r: String)
    ensures
        r@ == join(texts_of(message.parts.deep_view()), delimiter@),
{
    let ghost ps = message.parts.deep_view();
    let mut acc = String::new();
    let mut found = false;
    let mut i: usize = 0;
    while i < message.parts.len()
        invariant
            i <= message.parts.len(),
            ps == message.parts.deep_view(),
            found == (texts_of(ps.subrange(0, i as int)).len() > 0),
            acc@ == join(texts_of(ps.subrange(0, i as int)), delimiter@),
        decreases message.parts.len() - i,
    {
        assert(ps.subrange(0, i + 1).drop_last() =~= ps.subrange(0, i as int));
        match message.parts[i].as_text() {
            Some(t) => {
                let ghost prev = texts_of(ps.subrange(0, i as int));
                if found {
                    acc.append(delimiter);
                }
                acc.append(t);
                found = true;
                proof {
                    let now = texts_of(ps.subrange(0, i + 1));
                    assert(now == prev.push(t@));
                    if prev.len() > 0 {
                        assert(now.drop_last() =~= prev);
                    } else {
                        assert(acc@ =~= t@);
                    }
                }
            }
            None => {}
        }
        i = i + 1;
    }
    assert(ps.subrange(0, message.parts.len() as int) =~= ps);
    proof {
        if !found {
            assert(acc@ =~= Seq::<char>::empty());
        }
    }
    acc
}

} // verus!
