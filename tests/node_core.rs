use xnet_node::metrics::{credit_units, metrics_due, CREDIT_UNITS_PER_CREDIT};
use xnet_node::node::{generation_report, inbound_log_line};
use xnet_node::verification::{cast_vote, respond_to_verification, VOTE_DELAY_SECS};
use xnet_node::{
    Challenge, Command, FLEvent, FLTask, FLUpdate, InferenceTask, NetworkEvent, NodeCore, NodeId,
    NodeMetrics, TaskStatus, Topic, VerificationEvent, Vote, VoteType, WireMessage,
};

fn node() -> NodeCore {
    NodeCore::new("peer-a".to_string(), NodeMetrics::new())
}

fn challenge() -> Challenge {
    Challenge {
        target_session_id: "test-session-123".to_string(),
        target_layer: 10,
        challenger_id: "node-challenger-xyz".to_string(),
    }
}

#[test]
fn new_task_is_pending() {
    let t = InferenceTask::new("t1".to_string(), "llama3".to_string(), "hi".to_string());
    assert_eq!(t.id, "t1");
    assert_eq!(t.model_name, "llama3");
    assert_eq!(t.prompt, "hi");
    assert!(matches!(t.status, TaskStatus::Pending));
    assert_eq!(NodeId::new("abc".to_string()), NodeId("abc".to_string()));
}

#[test]
fn publish_task_then_receive_it() {
    let mut n = node();
    let t = InferenceTask::new("t1".to_string(), "llama3".to_string(), "hi".to_string());
    let r = n.on_command(Command::PublishTask(t));
    assert!(r.event.is_none());
    assert!(r.deferred.is_none());
    let published = match r.publish {
        Some(WireMessage::Task(t)) => t,
        _ => panic!("task expected"),
    };
    assert_eq!(WireMessage::Task(published.clone()).topic(), Topic::Tasks);
    let r = n.on_message(&"xnet/tasks/v1".to_string(), Some(WireMessage::Task(published)), &"x".to_string());
    match r.event {
        Some(NetworkEvent::TaskReceived(t)) => {
            assert_eq!(t.id, "t1");
            assert!(matches!(t.status, TaskStatus::Pending));
        }
        _ => panic!("task-received expected"),
    }
    assert_eq!(r.generate.map(|t| t.prompt), Some("hi".to_string()));
    assert_eq!(r.log, Some("[xnet/tasks/v1] x".to_string()));
    assert_eq!(n.metrics.tasks_processed, 1);
    assert_eq!(n.metrics.tasks_relayed, 1);
}

#[test]
fn undecodable_message_counts_as_relayed_only() {
    let mut n = node();
    let r = n.on_message(&"xnet/tasks/v1".to_string(), None, &"garbage".to_string());
    assert!(r.event.is_none() && r.generate.is_none() && r.deferred.is_none());
    assert_eq!(r.log, Some("[xnet/tasks/v1] garbage".to_string()));
    assert_eq!(n.metrics.tasks_relayed, 1);
    assert_eq!(n.metrics.tasks_processed, 0);
}

#[test]
fn challenge_gets_one_valid_vote_after_a_second() {
    let mut n = node();
    let r = n.on_message(
        &"xnet/verification/v1".to_string(),
        Some(WireMessage::Verification(VerificationEvent::ChallengeIssued(challenge()))),
        &"c".to_string(),
    );
    let d = r.deferred.expect("a vote");
    assert_eq!(d.delay_secs, VOTE_DELAY_SECS);
    match d.command {
        Command::PublishVerification(VerificationEvent::VoteCast(v)) => {
            assert_eq!(v.session_id, "test-session-123");
            assert_eq!(v.voter_id, "peer-a");
            assert_eq!(v.vote, VoteType::Valid);
        }
        _ => panic!("vote expected"),
    }
    let r = n.on_command(Command::PublishVerification(VerificationEvent::ChallengeIssued(challenge())));
    assert!(matches!(r.deferred.map(|d| d.command), Some(Command::PublishVerification(VerificationEvent::VoteCast(_)))));
}

#[test]
fn votes_and_slashing_get_no_answer() {
    let vote = VerificationEvent::VoteCast(Vote {
        session_id: "s".to_string(),
        voter_id: "v".to_string(),
        vote: VoteType::Invalid,
    });
    assert!(respond_to_verification(&vote, &"me".to_string()).is_none());
    let slash = VerificationEvent::SlashingEnforced { target_node_id: "n".to_string(), reason: "r".to_string() };
    assert!(respond_to_verification(&slash, &"me".to_string()).is_none());
    match cast_vote(&challenge(), &"me".to_string()) {
        VerificationEvent::VoteCast(v) => assert_eq!(v.session_id, "test-session-123"),
        _ => panic!("vote expected"),
    }
}

#[test]
fn fl_event_is_published_and_echoed() {
    let mut n = node();
    let update = FLEvent::LocalUpdate(FLUpdate {
        task_id: "fl-task-mnist-01".to_string(),
        node_id: "node-worker-abc".to_string(),
        round: 1,
        gradient_bits: vec![0.01f32.to_bits(); 10],
        metrics: "loss: 0.042".to_string(),
    });
    let r = n.on_command(Command::PublishFL(update));
    match r.publish {
        Some(WireMessage::FL(FLEvent::LocalUpdate(u))) => {
            assert_eq!(u.gradient_bits.len(), 10);
            assert_eq!(f32::from_bits(u.gradient_bits[0]), 0.01f32);
        }
        _ => panic!("fl update expected"),
    }
    assert!(matches!(r.event, Some(NetworkEvent::FLEvent(FLEvent::LocalUpdate(_)))));
    let global = FLEvent::GlobalModelUpdate(FLTask {
        id: "t".to_string(),
        model_id: "m".to_string(),
        round: 2,
        hyperparameters: "lr=0.1".to_string(),
    });
    let r = n.on_message(&"xnet/fl/v1".to_string(), Some(WireMessage::FL(global)), &"g".to_string());
    assert!(matches!(r.event, Some(NetworkEvent::FLEvent(FLEvent::GlobalModelUpdate(_)))));
    assert!(r.deferred.is_none());
}

#[test]
fn start_providing_only_announces() {
    let mut n = node();
    let r = n.on_command(Command::StartProviding);
    assert!(r.start_providing);
    assert!(r.publish.is_none() && r.event.is_none() && r.deferred.is_none());
}

#[test]
fn credits_follow_the_formula() {
    assert_eq!(credit_units(0, 0, 0), 0);
    // 120 s of uptime is 0.2 credit, 2 tasks 10 credits, 3 relays 3 credits.
    assert_eq!(credit_units(120, 2, 3), 120 + 2 * 3000 + 3 * 600);
    assert_eq!(credit_units(120, 2, 3) as f64 / CREDIT_UNITS_PER_CREDIT as f64, 13.2);
    assert_eq!(credit_units(u64::MAX, u64::MAX, u64::MAX), u64::MAX as u128 * 3601);
}

#[test]
fn counters_never_decrease_and_tick_recomputes() {
    let mut n = NodeCore::new("p".to_string(), NodeMetrics::with_credits(42));
    assert_eq!(n.metrics.credit_units, 42);
    let mut last = n.metrics;
    for i in 0..5 {
        let m = if i % 2 == 0 { None } else { Some(WireMessage::Task(InferenceTask::new("t".to_string(), "m".to_string(), "p".to_string()))) };
        n.on_message(&"xnet/tasks/v1".to_string(), m, &String::new());
        assert!(n.metrics.tasks_relayed >= last.tasks_relayed);
        assert!(n.metrics.tasks_processed >= last.tasks_processed);
        last = n.metrics;
    }
    let e = n.on_tick(60);
    assert_eq!(n.metrics.credit_units, 60 + 2 * 3000 + 5 * 600);
    assert!(matches!(e, NetworkEvent::MetricsUpdated(m) if m == n.metrics));
    let mut other = NodeMetrics { uptime_seconds: 9, tasks_processed: 2, tasks_relayed: 5, credit_units: 7 };
    other.refresh(60);
    assert_eq!(other.credit_units, n.metrics.credit_units);
}

#[test]
fn counters_saturate_at_the_ceiling() {
    let mut m = NodeMetrics { uptime_seconds: 0, tasks_processed: u64::MAX, tasks_relayed: u64::MAX, credit_units: 0 };
    m.record_message(true);
    assert_eq!(m.tasks_processed, u64::MAX);
    assert_eq!(m.tasks_relayed, u64::MAX);
}

#[test]
fn metrics_are_due_after_five_seconds() {
    assert!(!metrics_due(5000));
    assert!(metrics_due(5001));
    assert!(!metrics_due(0));
}

#[test]
fn topic_names_round_trip() {
    for t in [Topic::Tasks, Topic::Pipeline, Topic::Verification, Topic::FederatedLearning] {
        assert_eq!(Topic::from_name(&t.name()), Some(t));
    }
    assert_eq!(Topic::Verification.name(), "xnet/verification/v1");
    assert_eq!(Topic::FederatedLearning.name(), "xnet/fl/v1");
    assert_eq!(Topic::from_name(&"xnet/other/v1".to_string()), None);
}

#[test]
fn log_lines() {
    assert_eq!(inbound_log_line(&"xnet/fl/v1".to_string(), &"{\"a\":1}".to_string()), "[xnet/fl/v1] {\"a\":1}");
    assert_eq!(generation_report(&Ok("hello".to_string())), "[AI Response] hello");
    assert_eq!(generation_report(&Err("down".to_string())), "[AI Error] down");
}
