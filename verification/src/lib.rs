//! Verified core of a newsletter-delivery backend.
//!
//! The library covers the logic of the newsletter-publish pipeline: parsing
//! HTTP Basic credentials, validating them against a stored password hash
//! without leaking whether a username exists, reading confirmed subscriber
//! rows with per-row failure isolation, and dispatching the issue to each
//! valid subscriber with abort-on-first-send-failure semantics. All I/O
//! (HTTP, database, outbound email) lives in the surrounding application.

pub mod authentication;
pub mod basic_auth;
pub mod email;
pub mod publish;
pub mod subscribers;
pub mod subscriptions;

pub use authentication::StoredCredential;
pub use basic_auth::{BasicAuthError, Credentials};
pub use email::SubscriberEmail;
pub use publish::{BodyData, Content, NewsletterDispatch, PublishError};
pub use subscribers::{ConfirmedSubscriber, RowError};
pub use subscriptions::FormData;
