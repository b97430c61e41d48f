//! Sequential, message-driven access to actor state, with the decisions of
//! the actor machinery stated and proved.

mod outside;
pub use outside::{GhostActorDriver, GhostFuture, ShutdownSignal};

pub mod error;
pub use error::{GhostError, GhostResult};

pub mod state;
pub use state::{GhostActorState, GhostActorStateType};

pub mod config;
pub use config::GhostConfig;

pub mod control;
pub use control::GhostActorControl;

pub mod event;
pub use event::{
    GhostChanSend, GhostControlHandler, GhostDispatch, GhostEvent, GhostHandler, GhostReceiver,
    GhostSender,
};

pub mod task_loop;
pub use task_loop::{ActorLoop, LoopAction, LoopEvent, LoopPhase};

pub mod inject;
pub use inject::InjectQueue;

pub mod respond;
pub use respond::GhostRespond;

pub mod example;

pub mod rpc;
pub use rpc::{RpcChanError, RpcChanResult, RpcEnumError, RpcEnumResult};
