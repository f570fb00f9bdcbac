mod error;
pub use error::Error;

mod rpc;
pub use rpc::{Endpoint, PeerClientRPC};

mod logger;
pub use logger::{Logger, SequenceID};

mod role;
pub use role::{Diverged, Receipt, Role, Signature, Vote};

mod peer;
pub use peer::{Action, Peer};
