use vstd::prelude::*;

verus! {

/// Copies a string, keeping its value.
pub fn copy_string(s: &String) -> (r: String)
    ensures
        r == *s,
{
    s.clone()
}

/// Copies a vector of words, keeping its contents.
pub fn copy_words<T: Copy>(v: &Vec<T>) -> (r: Vec<T>)
    ensures
        r@ == v@,
{
    let mut r: Vec<T> = Vec::new();
    let mut i: usize = 0;
    while i < v.len()
        invariant
            i <= v@.len(),
            r@ == v@.subrange(0, i as int),
        decreases v@.len() - i,
    {
        r.push(v[i]);
        i = i + 1;
    }
    assert(r@ == v@.subrange(0, v@.len() as int));
    r
}

/// An opaque peer identifier.
#[derive(Debug, Clone, PartialEq, Eq, Hash)]
pub struct NodeId(pub String);

impl NodeId {
    /// An identifier with this text.
    pub fn new(id: String) -> (r: NodeId)
        ensures
            r.0 == id,
    {
        NodeId(id)
    }
}

/// Where a task stands. A task is meant to move only forward:
/// `Pending -> Processing -> Completed | Failed`.
#[derive(Debug, Clone)]
pub enum TaskStatus {
    Pending,
    Processing,
    Completed,
    Failed(String),
}

impl TaskStatus {
    pub fn duplicate(&self) -> (r: TaskStatus)
        ensures
            r == *self,
    {
        match self {
            TaskStatus::Pending => TaskStatus::Pending,
            TaskStatus::Processing => TaskStatus::Processing,
            TaskStatus::Completed => TaskStatus::Completed,
            TaskStatus::Failed(reason) => TaskStatus::Failed(copy_string(reason)),
        }
    }
}

/// A unit of requested generation work.
#[derive(Debug, Clone)]
pub struct InferenceTask {
    pub id: String,
    pub model_name: String,
    pub prompt: String,
    pub status: TaskStatus,
}

impl InferenceTask {
    /// A new task, `Pending`.
    pub fn new(id: String, model: String, prompt: String) -> (r: InferenceTask)
        ensures
            r.id == id,
            r.model_name == model,
            r.prompt == prompt,
            r.status == TaskStatus::Pending,
    {
        InferenceTask { id, model_name: model, prompt, status: TaskStatus::Pending }
    }

    pub fn duplicate(&self) -> (r: InferenceTask)
        ensures
            r == *self,
    {
        InferenceTask {
            id: copy_string(&self.id),
            model_name: copy_string(&self.model_name),
            prompt: copy_string(&self.prompt),
            status: self.status.duplicate(),
        }
    }
}

/// A simulated intermediate activation. Each element of the flat buffer is
/// held as the bit pattern of a 32-bit float.
#[derive(Debug, Clone)]
pub struct Tensor {
    pub shape: Vec<usize>,
    pub data_bits: Vec<u32>,
}

/// The value of a `Tensor`.
pub struct TensorView {
    pub shape: Seq<usize>,
    pub data_bits: Seq<u32>,
}

impl View for Tensor {
    type V = TensorView;

    open spec fn view(&self) -> TensorView {
        TensorView { shape: self.shape@, data_bits: self.data_bits@ }
    }
}

impl Tensor {
    pub fn duplicate(&self) -> (r: Tensor)
        ensures
            r@ == self@,
    {
        Tensor { shape: copy_words(&self.shape), data_bits: copy_words(&self.data_bits) }
    }
}

/// A step of a relay chain.
#[derive(Debug, Clone)]
pub enum PipelineEvent {
    InitSession { session_id: String, model: String },
    ForwardPass { session_id: String, layer_start: usize, tensor: Tensor },
    Result { session_id: String, token: String },
    Error { session_id: String, error: String },
}

/// The value of a `PipelineEvent`, its strings as character sequences.
pub enum PipelineView {
    InitSession { session_id: Seq<char>, model: Seq<char> },
    ForwardPass { session_id: Seq<char>, layer_start: nat, tensor: TensorView },
    Result { session_id: Seq<char>, token: Seq<char> },
    Error { session_id: Seq<char>, error: Seq<char> },
}

impl PipelineView {
    /// The session the event belongs to.
    pub open spec fn session(self) -> Seq<char> {
        match self {
            PipelineView::InitSession { session_id, .. } => session_id,
            PipelineView::ForwardPass { session_id, .. } => session_id,
            PipelineView::Result { session_id, .. } => session_id,
            PipelineView::Error { session_id, .. } => session_id,
        }
    }
}

impl View for PipelineEvent {
    type V = PipelineView;

    open spec fn view(&self) -> PipelineView {
        match self {
            PipelineEvent::InitSession { session_id, model } => PipelineView::InitSession {
                session_id: session_id@,
                model: model@,
            },
            PipelineEvent::ForwardPass { session_id, layer_start, tensor } =>
                PipelineView::ForwardPass {
                    session_id: session_id@,
                    layer_start: *layer_start as nat,
                    tensor: tensor@,
                },
            PipelineEvent::Result { session_id, token } => PipelineView::Result {
                session_id: session_id@,
                token: token@,
            },
            PipelineEvent::Error { session_id, error } => PipelineView::Error {
                session_id: session_id@,
                error: error@,
            },
        }
    }
}

impl PipelineEvent {
    pub fn duplicate(&self) -> (r: PipelineEvent)
        ensures
            r@ == self@,
    {
        match self {
            PipelineEvent::InitSession { session_id, model } => PipelineEvent::InitSession {
                session_id: copy_string(session_id),
                model: copy_string(model),
            },
            PipelineEvent::ForwardPass { session_id, layer_start, tensor } =>
                PipelineEvent::ForwardPass {
                    session_id: copy_string(session_id),
                    layer_start: *layer_start,
                    tensor: tensor.duplicate(),
                },
            PipelineEvent::Result { session_id, token } => PipelineEvent::Result {
                session_id: copy_string(session_id),
                token: copy_string(token),
            },
            PipelineEvent::Error { session_id, error } => PipelineEvent::Error {
                session_id: copy_string(session_id),
                error: copy_string(error),
            },
        }
    }
}

/// A verification request.
#[derive(Debug, Clone)]
pub struct Challenge {
    pub target_session_id: String,
    pub target_layer: usize,
    pub challenger_id: String,
}

/// A voter's verdict on a relay step.
#[derive(Debug, Clone, Copy, PartialEq, Eq, Structural)]
pub enum VoteType {
    Valid,
    Invalid,
}

/// A verification response.
#[derive(Debug, Clone)]
pub struct Vote {
    pub session_id: String,
    pub voter_id: String,
    pub vote: VoteType,
}

/// A message of the challenge and vote protocol. Slashing ends a cycle.
#[derive(Debug, Clone)]
pub enum VerificationEvent {
    ChallengeIssued(Challenge),
    VoteCast(Vote),
    SlashingEnforced { target_node_id: String, reason: String },
}

impl VerificationEvent {
    pub fn duplicate(&self) -> (r: VerificationEvent)
        ensures
            r == *self,
    {
        match self {
            VerificationEvent::ChallengeIssued(c) => VerificationEvent::ChallengeIssued(
                Challenge {
                    target_session_id: copy_string(&c.target_session_id),
                    target_layer: c.target_layer,
                    challenger_id: copy_string(&c.challenger_id),
                },
            ),
            VerificationEvent::VoteCast(v) => VerificationEvent::VoteCast(
                Vote {
                    session_id: copy_string(&v.session_id),
                    voter_id: copy_string(&v.voter_id),
                    vote: v.vote,
                },
            ),
            VerificationEvent::SlashingEnforced { target_node_id, reason } =>
                VerificationEvent::SlashingEnforced {
                    target_node_id: copy_string(target_node_id),
                    reason: copy_string(reason),
                },
        }
    }
}

/// A federated-learning round announced by its coordinator.
#[derive(Debug, Clone)]
pub struct FLTask {
    pub id: String,
    pub model_id: String,
    pub round: u32,
    pub hyperparameters: String,
}

/// A worker's update for a round. Each gradient is held as the bit pattern of a
/// 32-bit float.
#[derive(Debug, Clone)]
pub struct FLUpdate {
    pub task_id: String,
    pub node_id: String,
    pub round: u32,
    pub gradient_bits: Vec<u32>,
    pub metrics: String,
}

/// A message of federated-learning round coordination.
#[derive(Debug, Clone)]
pub enum FLEvent {
    GlobalModelUpdate(FLTask),
    LocalUpdate(FLUpdate),
}

/// The value of an `FLEvent`.
pub enum FLView {
    GlobalModelUpdate(FLTask),
    LocalUpdate {
        task_id: Seq<char>,
        node_id: Seq<char>,
        round: u32,
        gradient_bits: Seq<u32>,
        metrics: Seq<char>,
    },
}

impl View for FLEvent {
    type V = FLView;

    open spec fn view(&self) -> FLView {
        match self {
            FLEvent::GlobalModelUpdate(t) => FLView::GlobalModelUpdate(*t),
            FLEvent::LocalUpdate(u) => FLView::LocalUpdate {
                task_id: u.task_id@,
                node_id: u.node_id@,
                round: u.round,
                gradient_bits: u.gradient_bits@,
                metrics: u.metrics@,
            },
        }
    }
}

impl FLEvent {
    pub fn duplicate(&self) -> (r: FLEvent)
        ensures
            r@ == self@,
    {
        match self {
            FLEvent::GlobalModelUpdate(t) => FLEvent::GlobalModelUpdate(
                FLTask {
                    id: copy_string(&t.id),
                    model_id: copy_string(&t.model_id),
                    round: t.round,
                    hyperparameters: copy_string(&t.hyperparameters),
                },
            ),
            FLEvent::LocalUpdate(u) => FLEvent::LocalUpdate(
                FLUpdate {
                    task_id: copy_string(&u.task_id),
                    node_id: copy_string(&u.node_id),
                    round: u.round,
                    gradient_bits: copy_words(&u.gradient_bits),
                    metrics: copy_string(&u.metrics),
                },
            ),
        }
    }
}

} // verus!
