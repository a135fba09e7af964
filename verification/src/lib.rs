//! Verification of signed identity tokens (JWT-style compact serialization)
//! issued by Google's identity provider: parsing and claims validation,
//! signing-key resolution with a TTL cache over the provider's published
//! key-set document, and RSA signature verification of the exact signed bytes.

pub mod clock;
pub mod client;
pub mod encoding;
pub mod error;
pub mod header;
pub mod jsondoc;
pub mod jwk;
pub mod key_provider;
pub mod text;
pub mod token;
pub mod unverified_token;

pub use client::GenericClient;
pub use client::GenericClientBuilder;
pub use encoding::base64_decode;
pub use error::Error;
pub use error::InvalidError;
pub use header::Header;
pub use key_provider::GoogleKeyProvider;
pub use key_provider::HttpDocument;
pub use key_provider::KeyProvider;
pub use key_provider::Transport;
pub use jwk::JsonWebKey;
pub use jwk::JsonWebKeySet;
pub use token::IdPayload;
pub use token::JsonPayload;
pub use token::RequiredClaims;
pub use token::Token;
pub use unverified_token::UnverifiedToken;
