//! A UDP tunneling relay core: a fixed-format wire codec, per-connection
//! authenticated encryption, and a registry that maps client sessions to
//! locally allocated UDP ports.

pub mod auth;
pub mod server;
pub mod shared;

pub use shared::BytePacketBuffer;
pub use shared::Header;
pub use shared::Message;
pub use shared::TunnelError;
pub use auth::Authenticator;
pub use server::AuthConfig;
pub use server::Conn;
pub use server::PeerAddr;
pub use server::Server;
pub use auth::EncryptMethod;
