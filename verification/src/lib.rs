//! Trust and audit core of a local-first desktop assistant.
//!
//! The crate keeps per-user signing keys encrypted at rest, gates the
//! privileged admin mode behind a signed single-use challenge, mediates the
//! consent handshake between the admin and a named user, and maintains a
//! hash-chained audit ledger. Every function carries a contract that is
//! checked by the verifier; the few calls into cryptographic crates are
//! gathered in `primitives`, whose contracts are assumed.
//!
//! The library holds no file, no database and no lock. State is handed to
//! each operation by reference: the session state (`security::AppState`),
//! the identity directory (`users::IdentityDirectory`) and the audit
//! ledger (`logs::AuditLedger`). Persisting them, and serialising access
//! to them, is the caller's part.
//!
//! - `users`: key custody and the identity directory.
//! - `admin`: the admin challenge-response and the consent handshake.
//! - `logs`: the audit ledger and the check of its chain.
//! - `audit`: the protocol steps together with the entries that record
//!   them.
//! - `security`: the session state and the layout of the data directory.
//! - `policy`, `ui`, `rag`, `llm`, `history`: the rules of the commands
//!   around the core.
//! - `pem`, `hex`, `text`, `bytes`: encodings and small helpers.
//! - `error`: the error taxonomy.

pub mod admin;
pub mod audit;
pub mod bytes;
pub mod error;
pub mod hex;
pub mod history;
pub mod llm;
pub mod logs;
pub mod pem;
pub mod policy;
pub mod primitives;
pub mod rag;
pub mod security;
pub mod text;
pub mod ui;
pub mod users;
