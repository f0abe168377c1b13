use vstd::prelude::*;

use crate::types::{FLEvent, InferenceTask, PipelineEvent, VerificationEvent};

verus! {

/// Why a request to the network loop failed.
#[derive(Debug, Clone, Copy, PartialEq, Eq, Structural)]
pub enum NodeError {
    /// The network loop has stopped and takes no more commands.
    Closed,
}

/// The network capability: what collaborators may ask of a node.
pub trait NetworkInterface {
    fn publish_task(&self, task: InferenceTask) -> Result<(), NodeError>;

    fn announce_provider(&self) -> Result<(), NodeError>;

    fn publish_pipeline_event(&self, event: PipelineEvent) -> Result<(), NodeError>;

    fn publish_verification_event(&self, event: VerificationEvent) -> Result<(), NodeError>;

    fn publish_fl_event(&self, event: FLEvent) -> Result<(), NodeError>;
}

/// The generation capability a node consumes: text for a prompt.
pub trait RuntimeInterface {
    fn generate(&self, model: &String, prompt: &String) -> Result<String, String>;
}

} // verus!
