use vstd::prelude::*;
use vstd::string::StringExecFns;

use crate::metrics::{after_message, after_refresh, NodeMetrics};
use crate::relay::{relay_next, relay_next_event, COMPUTE_DELAY_SECS};
use crate::types::{copy_string, FLEvent, InferenceTask, PipelineEvent, VerificationEvent};
use crate::verification::{respond_to_verification, verification_response, VOTE_DELAY_SECS};

verus! {

/// The four broadcast topics, one per message class.
#[derive(Debug, Clone, Copy, PartialEq, Eq, Structural)]
pub enum Topic {
    Tasks,
    Pipeline,
    Verification,
    FederatedLearning,
}

pub open spec fn topic_name_spec(t: Topic) -> Seq<char> {
    match t {
        Topic::Tasks => "xnet/tasks/v1"@,
        Topic::Pipeline => "xnet/pipeline/v1"@,
        Topic::Verification => "xnet/verification/v1"@,
        Topic::FederatedLearning => "xnet/fl/v1"@,
    }
}

impl Topic {
    /// The topic's identifier on the wire.
    pub fn name(&self) -> (r: String)
        ensures
            r@ == topic_name_spec(*self),
    {
        proof {
            reveal_strlit("xnet/tasks/v1");
            reveal_strlit("xnet/pipeline/v1");
            reveal_strlit("xnet/verification/v1");
            reveal_strlit("xnet/fl/v1");
        }
        match self {
            Topic::Tasks => String::from_str("xnet/tasks/v1"),
            Topic::Pipeline => String::from_str("xnet/pipeline/v1"),
            Topic::Verification => String::from_str("xnet/verification/v1"),
            Topic::FederatedLearning => String::from_str("xnet/fl/v1"),
        }
    }

    /// The topic with identifier `name`, if any.
    pub fn from_name(name: &String) -> (r: Option<Topic>)
        ensures
            match r {
                Some(t) => topic_name_spec(t) == name@,
                None => forall|t: Topic| topic_name_spec(t) != name@,
            },
    {
        let tasks = Topic::Tasks.name();
        let pipeline = Topic::Pipeline.name();
        let verification = Topic::Verification.name();
        let fl = Topic::FederatedLearning.name();
        if *name == tasks {
            Some(Topic::Tasks)
        } else if *name == pipeline {
            Some(Topic::Pipeline)
        } else if *name == verification {
            Some(Topic::Verification)
        } else if *name == fl {
            Some(Topic::FederatedLearning)
        } else {
            proof {
                assert forall|t: Topic| topic_name_spec(t) != name@ by {
                    match t {
                        Topic::Tasks => {},
                        Topic::Pipeline => {},
                        Topic::Verification => {},
                        Topic::FederatedLearning => {},
                    }
                }
            }
            None
        }
    }
}

/// A message carried on one of the topics.
#[derive(Debug, Clone)]
pub enum WireMessage {
    Task(InferenceTask),
    Pipeline(PipelineEvent),
    Verification(VerificationEvent),
    FL(FLEvent),
}

impl WireMessage {
    pub open spec fn topic_spec(&self) -> Topic {
        match self {
            WireMessage::Task(_) => Topic::Tasks,
            WireMessage::Pipeline(_) => Topic::Pipeline,
            WireMessage::Verification(_) => Topic::Verification,
            WireMessage::FL(_) => Topic::FederatedLearning,
        }
    }

    /// The topic this message is published on.
    pub fn topic(&self) -> (r: Topic)
        ensures
            r == self.topic_spec(),
    {
        match self {
            WireMessage::Task(_) => Topic::Tasks,
            WireMessage::Pipeline(_) => Topic::Pipeline,
            WireMessage::Verification(_) => Topic::Verification,
            WireMessage::FL(_) => Topic::FederatedLearning,
        }
    }
}

/// What callers ask of the network loop.
#[derive(Debug, Clone)]
pub enum Command {
    PublishTask(InferenceTask),
    PublishPipeline(PipelineEvent),
    PublishVerification(VerificationEvent),
    PublishFL(FLEvent),
    StartProviding,
}

/// What the network loop tells its subscribers.
#[derive(Debug, Clone)]
pub enum NetworkEvent {
    PeerConnected(String),
    PeerDisconnected(String),
    TaskReceived(InferenceTask),
    Message(String),
    DhtEvent(String),
    MetricsUpdated(NodeMetrics),
    PipelineEvent(PipelineEvent),
    VerificationEvent(VerificationEvent),
    FLEvent(FLEvent),
}

/// A command to enqueue again once `delay_secs` have passed.
#[derive(Debug, Clone)]
pub struct Deferred {
    pub delay_secs: u64,
    pub command: Command,
}

/// What the network loop does in answer to one command or one inbound message.
#[derive(Debug, Clone)]
pub struct Reaction {
    /// A message to publish on its topic.
    pub publish: Option<WireMessage>,
    /// An event for the subscribers.
    pub event: Option<NetworkEvent>,
    /// A log line for the subscribers, sent after `event`.
    pub log: Option<String>,
    /// A command to run later.
    pub deferred: Option<Deferred>,
    /// A task to hand to the generation capability.
    pub generate: Option<InferenceTask>,
    /// Whether to announce this node as a compute provider.
    pub start_providing: bool,
}

pub open spec fn no_reaction(r: Reaction) -> bool {
    &&& r.publish is None
    &&& r.event is None
    &&& r.log is None
    &&& r.deferred is None
    &&& r.generate is None
    &&& !r.start_providing
}

/// The deferred relay step that follows a pipeline event.
pub open spec fn pipeline_follow_up(e: PipelineEvent, d: Option<Deferred>) -> bool {
    match relay_next(e@) {
        Some(n) => d matches Some(Deferred { delay_secs, command: Command::PublishPipeline(c) })
            && delay_secs == COMPUTE_DELAY_SECS && c@ == n,
        None => d is None,
    }
}

/// The deferred vote that follows a verification event.
pub open spec fn verification_follow_up(e: VerificationEvent, voter_id: String, d: Option<Deferred>) -> bool {
    match verification_response(e, voter_id) {
        Some(v) => d matches Some(Deferred { delay_secs, command: Command::PublishVerification(c) })
            && delay_secs == VOTE_DELAY_SECS && c == v,
        None => d is None,
    }
}

/// The log line for an inbound message: the topic in brackets, then the text.
pub open spec fn log_line_spec(topic: Seq<char>, text: Seq<char>) -> Seq<char> {
    "["@ + topic + "] "@ + text
}

pub fn inbound_log_line(topic: &String, text: &String) -> (r: String)
    ensures
        r@ == log_line_spec(topic@, text@),
{
    proof {
        reveal_strlit("[");
        reveal_strlit("] ");
    }
    let mut line = String::from_str("[");
    line.append(topic.as_str());
    line.append("] ");
    line.append(text.as_str());
    line
}

/// The log line that reports a generation outcome.
pub open spec fn generation_report_spec(outcome: Result<String, String>) -> Seq<char> {
    match outcome {
        Ok(text) => "[AI Response] "@ + text@,
        Err(e) => "[AI Error] "@ + e@,
    }
}

pub fn generation_report(outcome: &Result<String, String>) -> (r: String)
    ensures
        r@ == generation_report_spec(*outcome),
{
    proof {
        reveal_strlit("[AI Response] ");
        reveal_strlit("[AI Error] ");
    }
    match outcome {
        Ok(text) => {
            let mut line = String::from_str("[AI Response] ");
            line.append(text.as_str());
            line
        },
        Err(e) => {
            let mut line = String::from_str("[AI Error] ");
            line.append(e.as_str());
            line
        },
    }
}

/// The state the network loop owns: this node's identity and its ledger.
pub struct NodeCore {
    pub peer_id: String,
    pub metrics: NodeMetrics,
}

impl NodeCore {
    pub fn new(peer_id: String, metrics: NodeMetrics) -> (r: NodeCore)
        ensures
            r.peer_id == peer_id,
            r.metrics == metrics,
    {
        NodeCore { peer_id, metrics }
    }

    fn empty_reaction() -> (r: Reaction)
        ensures
            no_reaction(r),
    {
        Reaction {
            publish: None,
            event: None,
            log: None,
            deferred: None,
            generate: None,
            start_providing: false,
        }
    }

    fn pipeline_deferred(event: &PipelineEvent) -> (r: Option<Deferred>)
        ensures
            pipeline_follow_up(*event, r),
    {
        match relay_next_event(event) {
            Some(n) => Some(
                Deferred { delay_secs: COMPUTE_DELAY_SECS, command: Command::PublishPipeline(n) },
            ),
            None => None,
        }
    }

    fn verification_deferred(&self, event: &VerificationEvent) -> (r: Option<Deferred>)
        ensures
            verification_follow_up(*event, self.peer_id, r),
    {
        match respond_to_verification(event, &self.peer_id) {
            Some(v) => Some(
                Deferred { delay_secs: VOTE_DELAY_SECS, command: Command::PublishVerification(v) },
            ),
            None => None,
        }
    }

    /// Acts on a caller's command. Every message published, other than a
    /// task, is also handed to the subscribers and acted on locally as if it had
    /// been received. The ledger is not touched.
    pub fn on_command(&mut self, command: Command) -> (r: Reaction)
        ensures
            *final(self) == *old(self),
            r.log is None,
            r.generate is None,
            match command {
                Command::PublishTask(t) => r.publish == Some(WireMessage::Task(t))
                    && r.event is None && r.deferred is None && !r.start_providing,
                Command::PublishPipeline(e) => (r.publish matches Some(
                    WireMessage::Pipeline(p),
                ) && p@ == e@) && (r.event matches Some(NetworkEvent::PipelineEvent(q)) && q@
                    == e@) && pipeline_follow_up(e, r.deferred) && !r.start_providing,
                Command::PublishVerification(e) => r.publish == Some(WireMessage::Verification(e))
                    && r.event == Some(NetworkEvent::VerificationEvent(e))
                    && verification_follow_up(e, old(self).peer_id, r.deferred)
                    && !r.start_providing,
                Command::PublishFL(e) => (r.publish matches Some(WireMessage::FL(p)) && p@ == e@)
                    && (r.event matches Some(NetworkEvent::FLEvent(q)) && q@ == e@)
                    && r.deferred is None && !r.start_providing,
                Command::StartProviding => r.publish is None && r.event is None
                    && r.deferred is None && r.start_providing,
            },
    {
        let mut r = NodeCore::empty_reaction();
        match command {
            Command::PublishTask(t) => {
                r.publish = Some(WireMessage::Task(t));
            },
            Command::PublishPipeline(e) => {
                r.publish = Some(WireMessage::Pipeline(e.duplicate()));
                r.deferred = NodeCore::pipeline_deferred(&e);
                r.event = Some(NetworkEvent::PipelineEvent(e));
            },
            Command::PublishVerification(e) => {
                r.publish = Some(WireMessage::Verification(e.duplicate()));
                r.deferred = self.verification_deferred(&e);
                r.event = Some(NetworkEvent::VerificationEvent(e));
            },
            Command::PublishFL(e) => {
                r.publish = Some(WireMessage::FL(e.duplicate()));
                r.event = Some(NetworkEvent::FLEvent(e));
            },
            Command::StartProviding => {
                r.start_providing = true;
            },
        }
        r
    }

    /// Acts on a message received on `topic`: `message` is what its payload
    /// decoded to, `None` where it did not decode, and `text` is the payload
    /// read as text. Every message counts as relayed, a decoded task also as
    /// processed. Nothing is published; a log line is always sent.
    pub fn on_message(&mut self, topic: &String, message: Option<WireMessage>, text: &String) -> (r:
        Reaction)
        ensures
            final(self).peer_id == old(self).peer_id,
            final(self).metrics == after_message(old(self).metrics, message matches Some(WireMessage::Task(_))),
            r.publish is None,
            !r.start_providing,
            r.log matches Some(l) && l@ == log_line_spec(topic@, text@),
            match message {
                Some(WireMessage::Task(t)) => r.event == Some(NetworkEvent::TaskReceived(t))
                    && r.generate == Some(t) && r.deferred is None,
                Some(WireMessage::Pipeline(e)) => (r.event matches Some(
                    NetworkEvent::PipelineEvent(q),
                ) && q@ == e@) && pipeline_follow_up(e, r.deferred) && r.generate is None,
                Some(WireMessage::Verification(e)) => r.event == Some(
                    NetworkEvent::VerificationEvent(e),
                ) && verification_follow_up(e, old(self).peer_id, r.deferred)
                    && r.generate is None,
                Some(WireMessage::FL(e)) => (r.event matches Some(NetworkEvent::FLEvent(q)) && q@
                    == e@) && r.deferred is None && r.generate is None,
                None => r.event is None && r.deferred is None && r.generate is None,
            },
    {
        let mut r = NodeCore::empty_reaction();
        let decoded_task = match &message {
            Some(WireMessage::Task(_)) => true,
            _ => false,
        };
        self.metrics.record_message(decoded_task);
        match message {
            Some(WireMessage::Task(t)) => {
                r.event = Some(NetworkEvent::TaskReceived(t.duplicate()));
                r.generate = Some(t);
            },
            Some(WireMessage::Pipeline(e)) => {
                r.deferred = NodeCore::pipeline_deferred(&e);
                r.event = Some(NetworkEvent::PipelineEvent(e));
            },
            Some(WireMessage::Verification(e)) => {
                r.deferred = self.verification_deferred(&e);
                r.event = Some(NetworkEvent::VerificationEvent(e));
            },
            Some(WireMessage::FL(e)) => {
                r.event = Some(NetworkEvent::FLEvent(e));
            },
            None => {},
        }
        r.log = Some(inbound_log_line(topic, text));
        r
    }

    /// Recomputes the credits at `uptime_seconds` and reports the ledger.
    pub fn on_tick(&mut self, uptime_seconds: u64) -> (r: NetworkEvent)
        ensures
            final(self).peer_id == old(self).peer_id,
            final(self).metrics == after_refresh(old(self).metrics, uptime_seconds),
            r == NetworkEvent::MetricsUpdated(final(self).metrics),
    {
        self.metrics.refresh(uptime_seconds);
        NetworkEvent::MetricsUpdated(self.metrics)
    }
}

} // verus!
