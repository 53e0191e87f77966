//! Pure persistence logic: the deterministic Markdown layout of a
//! session, and the merge and removal operations on a stored session
//! list. Reading and writing the files themselves happens outside the
//! crate.

use vstd::prelude::*;
use vstd::string::StringExecFns;

use crate::externs::{clock_time_text_of, date_time_text_of, format_clock_time, format_date_time};
use crate::session::{ChatSession, Message, Role};

verus! {

/// The Markdown header of a message's role.
pub open spec fn spec_role_header(r: Role) -> Seq<char> {
    match r {
        Role::User => "**You**"@,
        Role::Assistant => "**Assistant**"@,
        Role::System => "**System**"@,
    }
}

/// One message in the export: role header, time of day, body, and a
/// horizontal rule.
pub open spec fn spec_message_markdown(m: Message) -> Seq<char> {
    spec_role_header(m.role) + " ("@ + clock_time_text_of(m.timestamp_ms) + ")\n\n"@ + m.content@
        + "\n\n---\n\n"@
}

/// Every message of the conversation in order.
pub open spec fn spec_messages_markdown(msgs: Seq<Message>) -> Seq<char>
    decreases msgs.len(),
{
    if msgs.len() == 0 {
        Seq::<char>::empty()
    } else {
        spec_message_markdown(msgs.first()) + spec_messages_markdown(msgs.drop_first())
    }
}

/// Appending a message to the conversation appends its text to the
/// export.
pub proof fn lemma_messages_markdown_push(msgs: Seq<Message>, m: Message)
    ensures
        spec_messages_markdown(msgs.push(m)) == spec_messages_markdown(msgs)
            + spec_message_markdown(m),
    decreases msgs.len(),
{
    let p = msgs.push(m);
    if msgs.len() == 0 {
        assert(p.first() == m);
        assert(p.drop_first() =~= Seq::<Message>::empty());
        assert(spec_messages_markdown(p.drop_first()) == Seq::<char>::empty());
        assert(spec_messages_markdown(p) == spec_message_markdown(m) + Seq::<char>::empty());
        assert(spec_message_markdown(m) + Seq::<char>::empty() =~= spec_message_markdown(m));
        assert(spec_messages_markdown(msgs) + spec_message_markdown(m) =~= spec_message_markdown(
            m,
        ));
    } else {
        assert(p.first() == msgs.first());
        assert(p.drop_first() =~= msgs.drop_first().push(m));
        lemma_messages_markdown_push(msgs.drop_first(), m);
        assert(spec_messages_markdown(p) == spec_message_markdown(msgs.first()) + (
        spec_messages_markdown(msgs.drop_first()) + spec_message_markdown(m)));
        assert(spec_message_markdown(msgs.first()) + (spec_messages_markdown(msgs.drop_first())
            + spec_message_markdown(m)) =~= (spec_message_markdown(msgs.first())
            + spec_messages_markdown(msgs.drop_first())) + spec_message_markdown(m));
    }
}

/// The whole export: title, model, creation and update times, the
/// optional system prompt, then the conversation.
pub open spec fn spec_session_markdown(s: ChatSession) -> Seq<char> {
    "# "@ + s.name@ + "\n\n"@ + "**Model:** "@ + s.model@ + "\n"@ + "**Created:** "@
        + date_time_text_of(s.created_at_ms) + "\n"@ + "**Updated:** "@ + date_time_text_of(
        s.updated_at_ms,
    ) + "\n\n"@ + (match s.system_prompt {
        Some(p) => "## System Prompt\n\n"@ + p@ + "\n\n"@,
        None => Seq::<char>::empty(),
    }) + "## Conversation\n\n"@ + spec_messages_markdown(s.messages@)
}

/// Renders a session as Markdown with the deterministic layout of
/// `spec_session_markdown`: title, model, timestamps, the optional
/// system prompt, then each message as a role header with its time of
/// day, its body, and a separating rule.
pub fn export_session_to_markdown(session: &ChatSession) -> (r: String)
    ensures
        r@ == spec_session_markdown(*session),
{
    let mut md = String::from_str("# ");
    md.append(session.name.as_str());
    md.append("\n\n");
    md.append("**Model:** ");
    md.append(session.model.as_str());
    md.append("\n");
    md.append("**Created:** ");
    let created = format_date_time(session.created_at_ms);
    md.append(created.as_str());
    md.append("\n");
    md.append("**Updated:** ");
    let updated = format_date_time(session.updated_at_ms);
    md.append(updated.as_str());
    md.append("\n\n");
    match &session.system_prompt {
        Some(p) => {
            md.append("## System Prompt\n\n");
            md.append(p.as_str());
            md.append("\n\n");
        },
        None => {},
    }
    md.append("## Conversation\n\n");
    let ghost head: Seq<char> = md@;
    let n = session.messages.len();
    let mut i: usize = 0;
    while i < n
        invariant
            i <= n,
            n == session.messages@.len(),
            md@ == head + spec_messages_markdown(session.messages@.take(i as int)),
        decreases n - i,
    {
        let m = &session.messages[i];
        match m.role {
            Role::User => {
                md.append("**You**");
            },
            Role::Assistant => {
                md.append("**Assistant**");
            },
            Role::System => {
                md.append("**System**");
            },
        }
        md.append(" (");
        let stamp = format_clock_time(m.timestamp_ms);
        md.append(stamp.as_str());
        md.append(")\n\n");
        md.append(m.content.as_str());
        md.append("\n\n---\n\n");
        proof {
            assert(session.messages@.take(i + 1) =~= session.messages@.take(i as int).push(
                session.messages@[i as int],
            ));
            lemma_messages_markdown_push(session.messages@.take(i as int), session.messages@[i as int]);
            assert(md@ =~= head + spec_messages_markdown(session.messages@.take(i + 1)));
        }
        i += 1;
    }
    proof {
        assert(session.messages@.take(n as int) =~= session.messages@);
        assert(md@ =~= spec_session_markdown(*session));
    }
    md
}

/// The position of the first session with the given identifier, if any.
pub open spec fn spec_find_session(ss: Seq<ChatSession>, id: u128, from: int) -> Option<int>
    decreases ss.len() - from,
{
    if from < 0 || from >= ss.len() {
        None
    } else if ss[from].id == id {
        Some(from)
    } else {
        spec_find_session(ss, id, from + 1)
    }
}

/// Merges one session into a stored list: the first stored session with
/// the same identifier is replaced; where none exists, the session is
/// appended.
pub fn merge_session(sessions: &mut Vec<ChatSession>, session: ChatSession)
    ensures
        match spec_find_session(old(sessions)@, session.id, 0) {
            Some(j) => final(sessions)@ == old(sessions)@.update(j, session),
            None => final(sessions)@ == old(sessions)@.push(session),
        },
{
    let n = sessions.len();
    let mut j: usize = 0;
    while j < n
        invariant
            j <= n,
            n == sessions@.len(),
            sessions@ == old(sessions)@,
            spec_find_session(sessions@, session.id, 0) == spec_find_session(
                sessions@,
                session.id,
                j as int,
            ),
        decreases n - j,
    {
        if sessions[j].id == session.id {
            let slot = &mut sessions[j];
            *slot = session;
            return ;
        }
        j += 1;
    }
    sessions.push(session);
}

/// The list without any session of the given identifier.
pub open spec fn spec_remove_id(ss: Seq<ChatSession>, id: u128) -> Seq<ChatSession>
    decreases ss.len(),
{
    if ss.len() == 0 {
        ss
    } else if ss.first().id == id {
        spec_remove_id(ss.drop_first(), id)
    } else {
        seq![ss.first()] + spec_remove_id(ss.drop_first(), id)
    }
}

/// Removes every session with the given identifier from a stored list,
/// keeping the others in order.
pub fn remove_session_by_id(sessions: &mut Vec<ChatSession>, id: u128)
    ensures
        final(sessions)@ == spec_remove_id(old(sessions)@, id),
{
    let mut i: usize = 0;
    proof {
        assert(sessions@.skip(0) =~= sessions@);
        assert(sessions@.take(0) =~= Seq::<ChatSession>::empty());
    }
    while i < sessions.len()
        invariant
            i <= sessions@.len(),
            forall|k: int| 0 <= k < i ==> #[trigger] sessions@[k].id != id,
            spec_remove_id(old(sessions)@, id) == sessions@.take(i as int) + spec_remove_id(
                sessions@.skip(i as int),
                id,
            ),
        decreases sessions@.len() - i,
    {
        if sessions[i].id == id {
            proof {
                let pre = sessions@;
                assert(pre.skip(i as int).first() == pre[i as int]);
                assert(pre.skip(i as int).drop_first() =~= pre.skip(i + 1));
            }
            let ghost pre = sessions@;
            sessions.remove(i);
            proof {
                assert(sessions@.take(i as int) =~= pre.take(i as int));
                assert(sessions@.skip(i as int) =~= pre.skip(i + 1));
            }
        } else {
            proof {
                let pre = sessions@;
                assert(pre.skip(i as int).first() == pre[i as int]);
                assert(pre.skip(i as int).drop_first() =~= pre.skip(i + 1));
                assert(pre.take(i + 1) =~= pre.take(i as int) + seq![pre[i as int]]);
                assert(pre.take(i as int) + (seq![pre[i as int]] + spec_remove_id(
                    pre.skip(i + 1),
                    id,
                )) =~= pre.take(i + 1) + spec_remove_id(pre.skip(i + 1), id));
            }
            i += 1;
        }
    }
    proof {
        assert(sessions@.skip(i as int) =~= Seq::<ChatSession>::empty());
        assert(sessions@.take(i as int) =~= sessions@);
    }
}

} // verus!
