//! Message-oriented transport capabilities.

pub mod channel;
pub mod codec;
pub mod duplex;
pub mod error;
pub mod laws;
pub mod privacy;
pub mod shared;
pub mod traits;
pub mod transform;

pub use channel::{PeerMismatch, RecvView, SendView};
pub use codec::{Codec, CodecChannel, CodecError, CodecPair, Decode, Encode};
pub use duplex::Duplex;
pub use error::{BoxError, BuildError, RecvError, SendError};
pub use privacy::{Anonymous, Privacy, Pseudonymous, Unspecified};
pub use shared::{split, SharedChannel, SharedRecvHalf, SharedSendHalf};
pub use traits::{Channel, ChannelBuilder, PeerChannel, RecvChannel, SendChannel, Step};
pub use transform::{Contramap, MapRecv};
