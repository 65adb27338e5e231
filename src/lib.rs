//! The artifact upload pipeline of a WebAssembly function host: a multipart
//! form parser that stages file parts on disk, a streaming content digester,
//! the two-phase publishing protocol of a content-addressed blob store, and
//! the orchestration that ties them together.
//!
//! Everything that touches the file system or the network is driven from the
//! outside: the functions here decide what to do next and check what came back.

pub mod auth;
pub mod digest;
pub mod error;
pub mod form;
pub mod models;
pub mod publish;
pub mod stream;
pub mod upload;

pub use error::{AuthError, Error};
pub use form::{FilePart, MultipartDatas, TextPart};
pub use models::{Gitea, NewUser};
