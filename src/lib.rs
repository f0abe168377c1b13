pub mod cli;
pub mod host;
pub mod interfaces;
pub mod metrics;
pub mod node;
pub mod relay;
pub mod types;
pub mod verification;

pub use interfaces::{NetworkInterface, NodeError, RuntimeInterface};
pub use metrics::NodeMetrics;
pub use node::{Command, NetworkEvent, NodeCore, Reaction, Topic, WireMessage};
pub use types::{
    Challenge, FLEvent, FLTask, FLUpdate, InferenceTask, NodeId, PipelineEvent, TaskStatus, Tensor,
    VerificationEvent, Vote, VoteType,
};
