//! A verified core for a contact-form relay service.
//!
//! The library holds the submission-processing pipeline: field validation,
//! the CAPTCHA verification protocol with its fail-open policy, the
//! decisions around lazily cached credentials and the mail transport, and
//! the rendering of the localized, injection-safe error page. All network
//! and process plumbing lives outside the library and drives these
//! functions with plain values.

pub mod error_page;
pub mod fake_friendlycaptcha;
pub mod friendlycaptcha;
pub mod laws;
pub mod mailer;
pub mod pipeline;
pub mod text;
