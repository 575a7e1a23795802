//! The actor planes of the daemon, each as the state it keeps and the
//! decision it makes per message: the owner lifecycle plane, the
//! classifier, the record-store plane, the state plane, the subscription
//! plane, the reply shaper, the dispatch phase's routing decisions, and the
//! messages and replies that pass between the root, the ingress phase and
//! the decoder. Running the planes as actors and sending the
//! messages happen at the edge.

pub mod classifier;
pub mod dispatch;
pub mod lifecycle;
pub mod messages;
pub mod ordered_keys;
pub mod record_store;
pub mod reply;
pub mod state;
pub mod subscription;
pub mod vocabulary;
