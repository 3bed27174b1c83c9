//! The live deployment view of the command-line tool: its status line and
//! the bounded log of events received from the agent.
use vstd::prelude::*;
use vstd::string::*;
use crate::protocol::{AgentMessage, BuildEvent, RollbackEvent};
use crate::text::{push_string, string_views};

verus! {

/// How many log lines the view keeps.
pub const MAX_LOG_LINES: usize = 500;

/// The WebSocket port of the agent.
pub const SHIPWRIGHT_WS_PORT: u16 = 17671;

/// The state of the live view.
pub struct App {
    project_name: String,
    status: String,
    logs: Vec<String>,
    should_quit: bool,
}

/// The log after adding a line: the oldest line leaves once there are more
/// than `MAX_LOG_LINES`.
pub open spec fn log_after(logs: Seq<Seq<char>>, line: Seq<char>) -> Seq<Seq<char>> {
    if logs.len() + 1 > MAX_LOG_LINES {
        logs.push(line).drop_first()
    } else {
        logs.push(line)
    }
}

/// What a message from the agent changes: the new status, if any, and the
/// line it adds to the log, if any.
pub open spec fn message_effect(m: AgentMessage) -> (Option<Seq<char>>, Option<Seq<char>>) {
    match m {
        AgentMessage::BuildUpdate { event, .. } => match event {
            BuildEvent::Started => (Some("Deploying..."@), Some("🚀 Deployment started"@)),
            BuildEvent::Log(line) => (None, Some("  "@ + line@)),
            BuildEvent::Success => (Some("Healthy"@), Some("✅ Deployment successful!"@)),
            BuildEvent::Failed(err) => (Some("Failed"@), Some("❌ Deployment failed: "@ + err@)),
        },
        AgentMessage::RollbackUpdate { event, .. } => match event {
            RollbackEvent::SnapshotStarted { .. } => (None, Some("📸 Creating deployment snapshot..."@)),
            RollbackEvent::RollbackStarted { reason, .. } => (
                Some("Rolling back..."@),
                Some("🔄 Rollback initiated: "@ + reason@),
            ),
            RollbackEvent::RollbackSuccess { .. } => (Some("Healthy (Rolled Back)"@), Some("✅ Rollback successful"@)),
            RollbackEvent::RollbackFailed { error } => (Some("Degraded"@), Some("❌ Rollback failed: "@ + error@)),
            _ => (None, None),
        },
        _ => (None, None),
    }
}

impl App {
    #[verifier::type_invariant]
    closed spec fn bounded(self) -> bool {
        self.logs@.len() <= MAX_LOG_LINES
    }

    /// The log lines, oldest first.
    pub closed spec fn log_lines(self) -> Seq<Seq<char>> {
        string_views(self.logs@)
    }

    /// The project watched.
    pub closed spec fn project_text(self) -> Seq<char> {
        self.project_name@
    }

    /// The status line.
    pub closed spec fn status_text(self) -> Seq<char> {
        self.status@
    }

    /// The view is to close.
    pub closed spec fn quitting(self) -> bool {
        self.should_quit
    }

    /// The project watched.
    pub fn project_name(&self) -> (r: &String)
        ensures
            r@ == self.project_text(),
    {
        &self.project_name
    }

    /// The status line.
    pub fn status(&self) -> (r: &String)
        ensures
            r@ == self.status_text(),
    {
        &self.status
    }

    /// Whether the view is to close.
    pub fn should_quit(&self) -> (r: bool)
        ensures
            r == self.quitting(),
    {
        self.should_quit
    }

    /// A view of a project, connecting, with an empty log.
    pub fn new(project_name: String) -> (r: App)
        ensures
            r.project_text() == project_name@,
            r.status_text() == "Connecting..."@,
            r.log_lines() == Seq::<Seq<char>>::empty(),
            !r.quitting(),
    {
        let r = App { project_name, status: String::from_str("Connecting..."), logs: Vec::new(), should_quit: false };
        assert(string_views(r.logs@) =~= Seq::<Seq<char>>::empty());
        r
    }

    /// The log lines, oldest first.
    pub fn logs(&self) -> (r: &Vec<String>)
        ensures
            string_views(r@) == self.log_lines(),
            r@.len() <= MAX_LOG_LINES,
    {
        proof {
            use_type_invariant(self);
        }
        &self.logs
    }

    /// Adds a line to the log, dropping the oldest once more than
    /// `MAX_LOG_LINES` are kept.
    pub fn add_log(&mut self, log: String)
        ensures
            final(self).log_lines() == log_after(old(self).log_lines(), log@),
            final(self).log_lines().len() <= MAX_LOG_LINES,
            final(self).status_text() == old(self).status_text(),
            final(self).project_text() == old(self).project_text(),
            final(self).quitting() == old(self).quitting(),
    {
        proof {
            use_type_invariant(&*self);
        }
        let mut logs: Vec<String> = Vec::new();
        std::mem::swap(&mut logs, &mut self.logs);
        let ghost l0 = string_views(logs@);
        push_string(&mut logs, log);
        if logs.len() > MAX_LOG_LINES {
            let ghost l1 = logs@;
            let _ = logs.remove(0);
            assert(string_views(logs@) =~= string_views(l1).drop_first());
        }
        assert(string_views(logs@) =~= log_after(l0, log@));
        self.logs = logs;
    }

    /// The connection is up: the view is idle.
    pub fn connected(&mut self)
        ensures
            final(self).status_text() == "Idle"@,
            final(self).log_lines() == old(self).log_lines(),
            final(self).project_text() == old(self).project_text(),
            final(self).quitting() == old(self).quitting(),
    {
        proof {
            use_type_invariant(&*self);
        }
        self.status = String::from_str("Idle");
    }

    /// The connection could not be made.
    pub fn connect_failed(&mut self, error: &str)
        ensures
            final(self).status_text() == "Failed to connect: "@ + error@,
            final(self).log_lines() == old(self).log_lines(),
            final(self).project_text() == old(self).project_text(),
            final(self).quitting() == old(self).quitting(),
    {
        proof {
            use_type_invariant(&*self);
        }
        let mut s = String::from_str("Failed to connect: ");
        s.append(error);
        self.status = s;
    }

    /// The agent closed the connection.
    pub fn closed(&mut self)
        ensures
            final(self).status_text() == "Disconnected"@,
            final(self).log_lines() == log_after(old(self).log_lines(), "Connection closed by agent."@),
            final(self).project_text() == old(self).project_text(),
            final(self).quitting() == old(self).quitting(),
    {
        proof {
            use_type_invariant(&*self);
        }
        self.status = String::from_str("Disconnected");
        self.add_log(String::from_str("Connection closed by agent."));
    }

    /// The connection failed.
    pub fn connection_error(&mut self, error: &str)
        ensures
            final(self).status_text() == "Error"@,
            final(self).log_lines() == log_after(old(self).log_lines(), "WebSocket error: "@ + error@),
            final(self).project_text() == old(self).project_text(),
            final(self).quitting() == old(self).quitting(),
    {
        proof {
            use_type_invariant(&*self);
        }
        self.status = String::from_str("Error");
        let mut l = String::from_str("WebSocket error: ");
        l.append(error);
        self.add_log(l);
    }

    /// Applies a message from the agent (see `message_effect`).
    pub fn apply_message(&mut self, message: &AgentMessage)
        ensures
            final(self).status_text() == (match message_effect(*message).0 {
                Some(s) => s,
                None => old(self).status_text(),
            }),
            final(self).log_lines() == (match message_effect(*message).1 {
                Some(l) => log_after(old(self).log_lines(), l),
                None => old(self).log_lines(),
            }),
            final(self).project_text() == old(self).project_text(),
            final(self).quitting() == old(self).quitting(),
    {
        proof {
            use_type_invariant(&*self);
        }
        match message {
            AgentMessage::BuildUpdate { event, .. } => match event {
                BuildEvent::Started => {
                    self.status = String::from_str("Deploying...");
                    self.add_log(String::from_str("🚀 Deployment started"));
                },
                BuildEvent::Log(line) => {
                    let mut l = String::from_str("  ");
                    l.append(line.as_str());
                    self.add_log(l);
                },
                BuildEvent::Success => {
                    self.status = String::from_str("Healthy");
                    self.add_log(String::from_str("✅ Deployment successful!"));
                },
                BuildEvent::Failed(err) => {
                    self.status = String::from_str("Failed");
                    let mut l = String::from_str("❌ Deployment failed: ");
                    l.append(err.as_str());
                    self.add_log(l);
                },
            },
            AgentMessage::RollbackUpdate { event, .. } => match event {
                RollbackEvent::SnapshotStarted { .. } => {
                    self.add_log(String::from_str("📸 Creating deployment snapshot..."));
                },
                RollbackEvent::RollbackStarted { reason, .. } => {
                    self.status = String::from_str("Rolling back...");
                    let mut l = String::from_str("🔄 Rollback initiated: ");
                    l.append(reason.as_str());
                    self.add_log(l);
                },
                RollbackEvent::RollbackSuccess { .. } => {
                    self.status = String::from_str("Healthy (Rolled Back)");
                    self.add_log(String::from_str("✅ Rollback successful"));
                },
                RollbackEvent::RollbackFailed { error } => {
                    self.status = String::from_str("Degraded");
                    let mut l = String::from_str("❌ Rollback failed: ");
                    l.append(error.as_str());
                    self.add_log(l);
                },
                _ => {},
            },
            _ => {},
        }
    }
}

/// The agent's WebSocket address on a host.
pub fn websocket_url(host: &str) -> (r: String)
    ensures
        r@ == "ws://"@ + host@ + ":"@ + crate::text::decimal(SHIPWRIGHT_WS_PORT as nat),
{
    let mut r = String::from_str("ws://");
    r.append(host);
    r.append(":");
    crate::text::push_decimal(&mut r, SHIPWRIGHT_WS_PORT as u64);
    r
}

/// The view never keeps more than `MAX_LOG_LINES` lines, and the newest
/// line is always the last one added.
pub proof fn lemma_log_bounded(logs: Seq<Seq<char>>, line: Seq<char>)
    requires
        logs.len() <= MAX_LOG_LINES,
    ensures
        log_after(logs, line).len() <= MAX_LOG_LINES,
        log_after(logs, line).last() == line,
{
}

} // verus!
