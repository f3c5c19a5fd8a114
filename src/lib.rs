//! A single-consumer reactor core: intents and effects are turned into
//! mutations of a model, concurrently executed tasks and re-render cycles.

mod action;
pub use self::action::{converted, converted_action, Action};

mod effect;
pub use self::effect::{converted_inner, converted_option, EffectApplied};

mod intent;
pub use self::intent::{converted_effect_applied, IntentHandled, IntentHandledResult};

pub mod laws;

mod message;
pub use self::message::Message;

mod model;
pub use self::model::{
    EffectAppliedOf, IntentHandledOf, Model, ModelChanged, ModelRender, ModelRenderHint,
};

mod messaging;
pub use self::messaging::{
    message_channel, Dequeued, Enqueued, MessageChannel, MessagePort, MessageReceiver, MessageSender,
    MAX_CAPACITY,
};

pub mod state;

mod task;
pub use self::task::{spawned_by, TaskContext, TaskExecutor};

mod processing;
pub use self::processing::{
    accumulated_hint, applied_chain, chain_ends, chain_fuel, chain_hints, chain_tasks,
    follow_chain, process_message, processed_model, rejection, run_message, step_after_await,
    step_after_poll, step_after_processed, ConsumeStep, MessageProcessed, MessagesConsumed,
};
