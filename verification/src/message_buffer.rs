//! Recent deployment events, kept for replay to clients that connect later.
use vstd::prelude::*;
use std::collections::VecDeque;
use crate::protocol::{AgentMessage, BuildEvent, RollbackEvent, SystemSnapshot};
use crate::text::str_eq;

verus! {

/// How many messages the buffer keeps.
pub const MAX_BUFFER_SIZE: usize = 200;

/// Build updates, rollback updates and errors are kept; metrics and other
/// transient messages are not.
pub open spec fn is_buffered(m: AgentMessage) -> bool {
    ||| m is BuildUpdate
    ||| m is RollbackUpdate
    ||| m is Error
}

/// The message is a build or rollback update of the project `p`.
pub open spec fn for_project(m: AgentMessage, p: Seq<char>) -> bool {
    match m {
        AgentMessage::BuildUpdate { project_name, .. } => project_name@ == p,
        AgentMessage::RollbackUpdate { project_name, .. } => project_name@ == p,
        _ => false,
    }
}

/// The messages of `s` that concern the project `p`, in order.
pub open spec fn project_messages(s: Seq<AgentMessage>, p: Seq<char>) -> Seq<AgentMessage>
    decreases s.len(),
{
    if s.len() == 0 {
        Seq::empty()
    } else if for_project(s.last(), p) {
        project_messages(s.drop_last(), p).push(s.last())
    } else {
        project_messages(s.drop_last(), p)
    }
}

/// The buffer after `push(m)`: a kept message goes to the back, and the
/// oldest message leaves when there are more than `MAX_BUFFER_SIZE`.
pub open spec fn after_push(s: Seq<AgentMessage>, m: AgentMessage) -> Seq<AgentMessage> {
    if !is_buffered(m) {
        s
    } else if s.len() + 1 > MAX_BUFFER_SIZE {
        s.push(m).drop_first()
    } else {
        s.push(m)
    }
}

/// A bounded buffer of deployment events.
pub struct MessageBuffer {
    buffer: VecDeque<AgentMessage>,
}

impl View for MessageBuffer {
    type V = Seq<AgentMessage>;

    closed spec fn view(&self) -> Seq<AgentMessage> {
        self.buffer@
    }
}

fn copy_snapshot(s: &SystemSnapshot) -> (r: SystemSnapshot)
    ensures
        r == *s,
{
    SystemSnapshot {
        timestamp_millis: s.timestamp_millis,
        cpu_usage_bits: s.cpu_usage_bits,
        memory_used: s.memory_used,
        memory_total: s.memory_total,
        disk_usage_bits: s.disk_usage_bits,
    }
}

fn copy_build_event(e: &BuildEvent) -> (r: BuildEvent)
    ensures
        r == *e,
{
    match e {
        BuildEvent::Started => BuildEvent::Started,
        BuildEvent::Log(s) => BuildEvent::Log(s.clone()),
        BuildEvent::Success => BuildEvent::Success,
        BuildEvent::Failed(s) => BuildEvent::Failed(s.clone()),
    }
}

fn copy_rollback_event(e: &RollbackEvent) -> (r: RollbackEvent)
    ensures
        r == *e,
{
    match e {
        RollbackEvent::SnapshotStarted { snapshot_id, strategy } => RollbackEvent::SnapshotStarted {
            snapshot_id: snapshot_id.clone(),
            strategy: strategy.clone(),
        },
        RollbackEvent::SnapshotCreated { snapshot_id, strategy } => RollbackEvent::SnapshotCreated {
            snapshot_id: snapshot_id.clone(),
            strategy: strategy.clone(),
        },
        RollbackEvent::RollbackStarted { from_snapshot_id, to_snapshot_id, reason } =>
            RollbackEvent::RollbackStarted {
            from_snapshot_id: from_snapshot_id.clone(),
            to_snapshot_id: to_snapshot_id.clone(),
            reason: reason.clone(),
        },
        RollbackEvent::RollbackProgress(s) => RollbackEvent::RollbackProgress(s.clone()),
        RollbackEvent::RollbackSuccess { snapshot_id, duration_secs } => RollbackEvent::RollbackSuccess {
            snapshot_id: snapshot_id.clone(),
            duration_secs: *duration_secs,
        },
        RollbackEvent::RollbackFailed { error } => RollbackEvent::RollbackFailed { error: error.clone() },
    }
}

fn copy_opt_string(o: &Option<String>) -> (r: Option<String>)
    ensures
        r == *o,
{
    match o {
        Some(s) => Some(s.clone()),
        None => None,
    }
}

/// An exact copy of a message.
pub fn copy_message(m: &AgentMessage) -> (r: AgentMessage)
    ensures
        r == *m,
{
    match m {
        AgentMessage::Connect { agent_id, hostname, version } => AgentMessage::Connect {
            agent_id: agent_id.clone(),
            hostname: hostname.clone(),
            version: version.clone(),
        },
        AgentMessage::Metrics(s) => AgentMessage::Metrics(copy_snapshot(s)),
        AgentMessage::HealthResult { check_name, success, message, duration_ms } => AgentMessage::HealthResult {
            check_name: check_name.clone(),
            success: *success,
            message: copy_opt_string(message),
            duration_ms: *duration_ms,
        },
        AgentMessage::LogLine { container_name, line, timestamp } => AgentMessage::LogLine {
            container_name: container_name.clone(),
            line: line.clone(),
            timestamp: timestamp.clone(),
        },
        AgentMessage::Error(s) => AgentMessage::Error(s.clone()),
        AgentMessage::BuildUpdate { project_name, event } => AgentMessage::BuildUpdate {
            project_name: project_name.clone(),
            event: copy_build_event(event),
        },
        AgentMessage::RollbackUpdate { project_name, event } => AgentMessage::RollbackUpdate {
            project_name: project_name.clone(),
            event: copy_rollback_event(event),
        },
    }
}

/// The message is a build or rollback update of `project_name`.
pub fn is_for_project(m: &AgentMessage, project_name: &str) -> (r: bool)
    ensures
        r == for_project(*m, project_name@),
{
    match m {
        AgentMessage::BuildUpdate { project_name: pn, .. } => str_eq(pn.as_str(), project_name),
        AgentMessage::RollbackUpdate { project_name: pn, .. } => str_eq(pn.as_str(), project_name),
        _ => false,
    }
}

impl MessageBuffer {
    #[verifier::type_invariant]
    closed spec fn bounded(self) -> bool {
        self.buffer@.len() <= MAX_BUFFER_SIZE
    }

    /// An empty buffer.
    pub fn new() -> (r: MessageBuffer)
        ensures
            r@ == Seq::<AgentMessage>::empty(),
    {
        MessageBuffer { buffer: VecDeque::with_capacity(MAX_BUFFER_SIZE) }
    }

    /// The number of buffered messages.
    pub fn len(&self) -> (r: usize)
        ensures
            r == self@.len(),
            r <= MAX_BUFFER_SIZE,
    {
        proof {
            use_type_invariant(self);
        }
        self.buffer.len()
    }

    /// Adds a message: build updates, rollback updates and errors are kept,
    /// the oldest leaving once more than `MAX_BUFFER_SIZE` are held; other
    /// messages are dropped.
    pub fn push(&mut self, message: AgentMessage)
        ensures
            final(self)@ == after_push(old(self)@, message),
            final(self)@.len() <= MAX_BUFFER_SIZE,
    {
        proof {
            use_type_invariant(&*self);
        }
        let keep = match &message {
            AgentMessage::BuildUpdate { .. } | AgentMessage::RollbackUpdate { .. } | AgentMessage::Error(_) => true,
            _ => false,
        };
        if keep {
            let mut b: VecDeque<AgentMessage> = VecDeque::new();
            std::mem::swap(&mut b, &mut self.buffer);
            let ghost b0 = b@;
            b.push_back(message);
            if b.len() > MAX_BUFFER_SIZE {
                let _ = b.pop_front();
            }
            assert(b@ =~= after_push(b0, message));
            self.buffer = b;
        }
    }

    /// All buffered messages, oldest first.
    pub fn get_all(&self) -> (r: Vec<AgentMessage>)
        ensures
            r@ == self@,
    {
        let mut r: Vec<AgentMessage> = Vec::new();
        let mut i: usize = 0;
        while i < self.buffer.len()
            invariant
                i <= self.buffer@.len(),
                r@ == self.buffer@.subrange(0, i as int),
            decreases self.buffer@.len() - i,
        {
            r.push(copy_message(&self.buffer[i]));
            assert(r@ =~= self.buffer@.subrange(0, i + 1));
            i = i + 1;
        }
        assert(self.buffer@.subrange(0, self.buffer@.len() as int) =~= self.buffer@);
        r
    }

    /// The buffered build and rollback updates of one project, oldest first.
    pub fn get_for_project(&self, project_name: &str) -> (r: Vec<AgentMessage>)
        ensures
            r@ == project_messages(self@, project_name@),
    {
        let mut r: Vec<AgentMessage> = Vec::new();
        let mut i: usize = 0;
        while i < self.buffer.len()
            invariant
                i <= self.buffer@.len(),
                r@ == project_messages(self.buffer@.subrange(0, i as int), project_name@),
            decreases self.buffer@.len() - i,
        {
            let ghost next = self.buffer@.subrange(0, i + 1);
            assert(next.drop_last() =~= self.buffer@.subrange(0, i as int));
            if is_for_project(&self.buffer[i], project_name) {
                r.push(copy_message(&self.buffer[i]));
            }
            i = i + 1;
        }
        assert(self.buffer@.subrange(0, self.buffer@.len() as int) =~= self.buffer@);
        r
    }

    /// Removes every message.
    pub fn clear(&mut self)
        ensures
            final(self)@ == Seq::<AgentMessage>::empty(),
    {
        self.buffer = VecDeque::new();
    }
}

/// The buffer never holds more than `MAX_BUFFER_SIZE` messages, whatever is
/// pushed.
pub proof fn lemma_push_bounded(s: Seq<AgentMessage>, m: AgentMessage)
    requires
        s.len() <= MAX_BUFFER_SIZE,
    ensures
        after_push(s, m).len() <= MAX_BUFFER_SIZE,
{
}

/// A kept message is the newest one replayed, and the messages before it are
/// the previous ones, less the oldest when the buffer was full.
pub proof fn lemma_push_replays_last(s: Seq<AgentMessage>, m: AgentMessage)
    requires
        is_buffered(m),
    ensures
        after_push(s, m).last() == m,
        s.len() < MAX_BUFFER_SIZE ==> after_push(s, m).drop_last() == s,
        s.len() >= MAX_BUFFER_SIZE ==> after_push(s, m).drop_last() == s.drop_first(),
{
    if s.len() >= MAX_BUFFER_SIZE {
        assert(s.push(m).drop_first().drop_last() =~= s.drop_first());
    } else {
        assert(s.push(m).drop_last() =~= s);
    }
}

/// Pushing a message of another kind changes nothing.
pub proof fn lemma_push_unbuffered(s: Seq<AgentMessage>, m: AgentMessage)
    requires
        !is_buffered(m),
    ensures
        after_push(s, m) == s,
{
}

/// The messages of a project are a part of all messages: no more of them,
/// and each is one of the buffer's messages for that project.
pub proof fn lemma_project_messages_within(s: Seq<AgentMessage>, p: Seq<char>)
    ensures
        project_messages(s, p).len() <= s.len(),
        forall|i: int|
            0 <= i < project_messages(s, p).len() ==> s.contains(#[trigger] project_messages(s, p)[i])
                && for_project(project_messages(s, p)[i], p),
    decreases s.len(),
{
    if s.len() > 0 {
        lemma_project_messages_within(s.drop_last(), p);
        let q = project_messages(s, p);
        let q0 = project_messages(s.drop_last(), p);
        assert forall|i: int| 0 <= i < q.len() implies s.contains(#[trigger] q[i]) && for_project(q[i], p) by {
            if i < q0.len() {
                assert(q[i] == q0[i]);
                assert(s.drop_last().contains(q0[i]));
                let k = choose|k: int| 0 <= k < s.drop_last().len() && s.drop_last()[k] == q0[i];
                assert(s[k] == q0[i]);
            } else {
                assert(q[i] == s.last());
                assert(s[s.len() - 1] == s.last());
            }
        }
    }
}

// ---------------------------------------------------------------------------
// A client connection
// ---------------------------------------------------------------------------

/// What happens on a client connection once the buffered messages were
/// replayed to it.
pub enum ConnectionEvent {
    /// The metrics interval elapsed; the sample taken.
    MetricsTick(SystemSnapshot),
    /// A message was broadcast to all clients.
    Broadcast(AgentMessage),
    /// The client sent a text frame (a command, logged if it parses).
    TextFrame(String),
    /// The client closed the connection.
    CloseFrame,
    /// Reading from the client failed.
    ReadError,
    /// The client sent another kind of frame.
    OtherFrame,
    /// Sending to the client failed.
    SendFailed,
}

/// What the connection does next.
pub enum ConnectionAction {
    /// Send a message to the client.
    Send(AgentMessage),
    /// Nothing; wait for the next event.
    Ignore,
    /// End the connection.
    Stop,
}

/// The action for an event on a connection: samples and broadcasts are
/// sent on; frames from the client are only read; a close, an error or a
/// failed send ends the connection.
pub fn connection_step(event: ConnectionEvent) -> (r: ConnectionAction)
    ensures
        (match event {
            ConnectionEvent::MetricsTick(s) => r == ConnectionAction::Send(AgentMessage::Metrics(s)),
            ConnectionEvent::Broadcast(m) => r == ConnectionAction::Send(m),
            ConnectionEvent::TextFrame(_) | ConnectionEvent::OtherFrame => r is Ignore,
            ConnectionEvent::CloseFrame | ConnectionEvent::ReadError | ConnectionEvent::SendFailed => r is Stop,
        }),
{
    match event {
        ConnectionEvent::MetricsTick(s) => ConnectionAction::Send(AgentMessage::Metrics(s)),
        ConnectionEvent::Broadcast(m) => ConnectionAction::Send(m),
        ConnectionEvent::TextFrame(_) => ConnectionAction::Ignore,
        ConnectionEvent::OtherFrame => ConnectionAction::Ignore,
        ConnectionEvent::CloseFrame => ConnectionAction::Stop,
        ConnectionEvent::ReadError => ConnectionAction::Stop,
        ConnectionEvent::SendFailed => ConnectionAction::Stop,
    }
}

/// The sample sent to clients: CPU and memory as collected, disk usage 0.
pub fn metrics_snapshot(timestamp_millis: i64, cpu_usage_bits: u32, memory_used: u64, memory_total: u64) -> (r:
    SystemSnapshot)
    ensures
        r.timestamp_millis == timestamp_millis,
        r.cpu_usage_bits == cpu_usage_bits,
        r.memory_used == memory_used,
        r.memory_total == memory_total,
        r.disk_usage_bits == 0,
{
    SystemSnapshot { timestamp_millis, cpu_usage_bits, memory_used, memory_total, disk_usage_bits: 0 }
}

} // verus!
