//! A minimal actor-model runtime: mutable state plus a message handler,
//! packaged behind a cloneable handle that enqueues messages into a FIFO
//! queue drained by a single processing loop.

pub mod actor;
pub mod channel;
pub mod container;
pub mod handle;
pub mod runtime;

pub use actor::Actor;
pub use actor::ActorMessage;
pub use actor::CounterActor;
pub use actor::fold_messages;
pub use channel::BOUNDED_CHANNEL_CAPACITY;
pub use channel::ChannelPolicy;
pub use channel::MessageQueue;
pub use channel::RecvAttempt;
pub use channel::SendAttempt;
pub use container::ActorContainer;
pub use container::BasicActorContainer;
pub use container::BufferedReceiver;
pub use container::ReceiveHandle;
pub use handle::BasicActorHandle;
pub use handle::BoundedActorHandle;
pub use handle::MAX_BOUNDED_CAPACITY;
pub use handle::PollReceive;
pub use handle::SendError;
pub use handle::bounded_pair;
pub use handle::run_available;
pub use handle::unbounded_pair;
pub use runtime::run_actor;
