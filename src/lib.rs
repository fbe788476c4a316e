//! Provenance bridge: adapts caller-supplied stream and signing callbacks to the
//! provenance engine, and keeps the builder and reader state that callers drive
//! through opaque handles.

pub mod builder;
pub mod channel;
pub mod error;
pub mod info;
pub mod memory;
pub mod reader;
pub mod signer;
pub mod stream;

pub use builder::ManifestBuilder;
pub use channel::ErrorChannel;
pub use error::{C2paError, StreamError};
pub use info::supported_extensions;
pub use memory::MemoryStream;
pub use reader::{verify_stream, ManifestEntry, ManifestStoreReader, ResourceEntry, StoreSnapshot};
pub use signer::{C2paSigner, SignerCallback, SignerConfig};
pub use stream::{C2paStream, SeekMode, StreamCallbacks, StreamContext};
