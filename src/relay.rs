use vstd::prelude::*;
use vstd::string::StringExecFns;

use crate::types::{copy_string, PipelineEvent, PipelineView, Tensor, TensorView};

verus! {

/// Layers computed by one relay hop.
pub const LAYER_STRIDE: usize = 10;

/// The layer at which a chain is complete.
pub const FINAL_LAYER: usize = 30;

/// Simulated compute time of one hop, in seconds.
pub const COMPUTE_DELAY_SECS: u64 = 2;

/// Elements in the flat buffer of a simulated activation.
pub const ACTIVATION_LEN: usize = 10;

/// Width of a simulated activation.
pub const ACTIVATION_WIDTH: usize = 4096;

/// Bits of the 32-bit float 0.1, the first hop's fill value.
pub const FIRST_HOP_FILL: u32 = 0x3dcc_cccd;

/// Bits of the 32-bit float 0.2, the fill value of the later hops.
pub const LATER_HOP_FILL: u32 = 0x3e4c_cccd;

/// The placeholder token that completes a chain.
pub open spec fn result_token() -> Seq<char> {
    "Hello xNet!"@
}

/// The simulated activation a hop produces, filled with `fill`.
pub open spec fn activation(fill: u32) -> TensorView {
    TensorView {
        shape: seq![1usize, ACTIVATION_WIDTH],
        data_bits: Seq::new(ACTIVATION_LEN as nat, |i: int| fill),
    }
}

/// What a node broadcasts in answer to a pipeline event, if anything.
pub open spec fn relay_next(e: PipelineView) -> Option<PipelineView> {
    match e {
        PipelineView::InitSession { session_id, .. } => Some(
            PipelineView::ForwardPass {
                session_id,
                layer_start: 0,
                tensor: activation(FIRST_HOP_FILL),
            },
        ),
        PipelineView::ForwardPass { session_id, layer_start, .. } => {
            if layer_start >= FINAL_LAYER {
                None
            } else if layer_start + LAYER_STRIDE >= FINAL_LAYER {
                Some(PipelineView::Result { session_id, token: result_token() })
            } else {
                Some(
                    PipelineView::ForwardPass {
                        session_id,
                        layer_start: (layer_start + LAYER_STRIDE) as nat,
                        tensor: activation(LATER_HOP_FILL),
                    },
                )
            }
        },
        _ => None,
    }
}

fn make_activation(fill: u32) -> (r: Tensor)
    ensures
        r@ == activation(fill),
{
    let mut data_bits: Vec<u32> = Vec::new();
    let mut i: usize = 0;
    while i < ACTIVATION_LEN
        invariant
            i <= ACTIVATION_LEN,
            data_bits@ == Seq::new(i as nat, |j: int| fill),
        decreases ACTIVATION_LEN - i,
    {
        data_bits.push(fill);
        i = i + 1;
        assert(data_bits@ =~= Seq::new(i as nat, |j: int| fill));
    }
    let shape = vec![1usize, ACTIVATION_WIDTH];
    assert(shape@ =~= seq![1usize, ACTIVATION_WIDTH]);
    Tensor { shape, data_bits }
}

/// The event that continues the chain after `event`, or `None` where the
/// chain stops there: a `ForwardPass` at or past the final layer, a `Result`
/// or an `Error`.
pub fn relay_next_event(event: &PipelineEvent) -> (r: Option<PipelineEvent>)
    ensures
        match r {
            Some(n) => relay_next(event@) == Some(n@),
            None => relay_next(event@) is None,
        },
{
    match event {
        PipelineEvent::InitSession { session_id, .. } => Some(
            PipelineEvent::ForwardPass {
                session_id: copy_string(session_id),
                layer_start: 0,
                tensor: make_activation(FIRST_HOP_FILL),
            },
        ),
        PipelineEvent::ForwardPass { session_id, layer_start, .. } => {
            if *layer_start >= FINAL_LAYER {
                None
            } else if *layer_start + LAYER_STRIDE >= FINAL_LAYER {
                let token = String::from_str("Hello xNet!");
                proof {
                    reveal_strlit("Hello xNet!");
                }
                Some(PipelineEvent::Result { session_id: copy_string(session_id), token })
            } else {
                Some(
                    PipelineEvent::ForwardPass {
                        session_id: copy_string(session_id),
                        layer_start: *layer_start + LAYER_STRIDE,
                        tensor: make_activation(LATER_HOP_FILL),
                    },
                )
            }
        },
        _ => None,
    }
}

/// The layer a pipeline event has reached, for the events that carry one.
pub open spec fn layer_of(e: PipelineView) -> Option<nat> {
    match e {
        PipelineView::ForwardPass { layer_start, .. } => Some(layer_start),
        _ => None,
    }
}

/// A chain started by `InitSession` runs `ForwardPass` at layers 0, 10 and 20,
/// then a `Result` with the placeholder token, then stops; every event of it
/// carries the session that started it.
pub proof fn lemma_chain_from_init(session_id: Seq<char>, model: Seq<char>)
    ensures
        ({
            let e0 = PipelineView::InitSession { session_id, model };
            let e1 = PipelineView::ForwardPass {
                session_id,
                layer_start: 0,
                tensor: activation(FIRST_HOP_FILL),
            };
            let e2 = PipelineView::ForwardPass {
                session_id,
                layer_start: 10,
                tensor: activation(LATER_HOP_FILL),
            };
            let e3 = PipelineView::ForwardPass {
                session_id,
                layer_start: 20,
                tensor: activation(LATER_HOP_FILL),
            };
            let e4 = PipelineView::Result { session_id, token: result_token() };
            &&& relay_next(e0) == Some(e1)
            &&& relay_next(e1) == Some(e2)
            &&& relay_next(e2) == Some(e3)
            &&& relay_next(e3) == Some(e4)
            &&& relay_next(e4) is None
        }),
{
}

/// Along any relay step the session is kept and the layer does not go down; a
/// `ForwardPass` only ever follows an `InitSession` or a `ForwardPass` below the
/// final layer.
pub proof fn lemma_relay_step_monotone(e: PipelineView)
    ensures
        relay_next(e) matches Some(n) ==> {
            &&& n.session() == e.session()
            &&& (layer_of(e) matches Some(l) ==> (layer_of(n) matches Some(m) ==> l <= m))
            &&& (layer_of(n) is Some ==> e is InitSession || (layer_of(e) matches Some(l) && l < FINAL_LAYER))
        },
{
}

/// A `ForwardPass` at or past the final layer, a `Result` and an `Error` end the
/// chain.
pub proof fn lemma_relay_terminal(e: PipelineView)
    ensures
        (e is Result || e is Error || (layer_of(e) matches Some(l) && l >= FINAL_LAYER))
            ==> relay_next(e) is None,
{
}

} // verus!
