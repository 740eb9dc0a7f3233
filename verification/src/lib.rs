//! Resolution of the current login token for the InfinyOn remote service.
//!
//! The crate locates and reads an already-issued bearer token. It decides
//! which generation of stored credentials to trust: an explicit profile named
//! by an environment override, the multi-organization output of an external
//! helper process, or the legacy on-disk scheme in which a small pointer file
//! names the active credential file. All file and process I/O is performed by
//! the caller; the functions here take the raw contents that were read and
//! carry out every decision on them.
pub mod credentials;
pub mod errors;
pub mod resolver;
pub mod text;
pub mod tokens;

pub use credentials::Credentials;
pub use credentials::current_pointer_path;
pub use credentials::current_record_path;
pub use errors::InfinyonCredentialError;
pub use resolver::default_file_path;
pub use resolver::default_file_path_from;
pub use resolver::read_infinyon_token;
pub use resolver::read_infinyon_token_rem;
pub use resolver::read_infinyon_token_v3;
pub use tokens::CliAccessTokens;
pub use tokens::read_access_tokens;

