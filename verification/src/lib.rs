//! The key management service of one security level of a hardware-backed
//! keystore: the component between the callers and the secure crypto engine
//! that generates, imports and unwraps keys, stores what the engine returns,
//! and creates the operations that use a key.
//!
//! The service decides and never calls. Each request is a state machine: a
//! method of [`security_level::KeystoreSecurityLevel`] checks the arguments and
//! returns the first [`exchange::Step`], which either ends the request or names
//! the one call to make next on a collaborator (the access gate, the key store,
//! the crypto engine, the operation registry) together with the state to
//! resume with the answer. Whoever drives a request makes the calls and owns
//! the real resources; the state machine owns the order of the calls, the
//! arguments of each, and the result.
//!
//! - [`security_level`]: the service and the first step of each request.
//! - [`key_creation`]: generation, import and wrapped import.
//! - [`operation_creation`]: the creation of an operation, with the eviction
//!   of operations while the engine has no free slot.
//! - [`upgrade`]: the upgrade-retry protocol for engine calls on stored blobs.
//! - [`persistence`]: the persistence of a new key.
//! - [`exchange`]: calls, answers, steps, and what a run of a request is.
//! - [`utils`]: the questions for the access gate and the conversions of key
//!   parameters.
//! - [`api`], [`keymint`], [`key_parameter`], [`database`], [`permission`],
//!   [`error`]: the values that travel.
//!
//! What is proved of every run of a request, for all answers the collaborators
//! may give, is stated by the public proof functions next to each state
//! machine, over a model of the key store ([`database::KeyStoreModel`]).

pub mod api;
pub mod database;
pub mod error;
pub mod exchange;
pub mod key_creation;
pub mod key_parameter;
pub mod keymint;
pub mod operation_creation;
pub mod permission;
pub mod persistence;
pub mod security_level;
pub mod upgrade;
pub mod utils;
