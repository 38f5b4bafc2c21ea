//! Command-dispatch and response-shaping pipeline of a chat-room assistant
//! that answers scripting-language reference questions.
//!
//! Raw message text is parsed into a typed action, the action selects one of
//! two remote documentation queries, the decoded query result is filtered and
//! formatted into reply text, and every failure is classified as silent,
//! user-visible notice, or surfaced to an operator.  The chat session, the
//! HTTP transport and the JSON decoding around this core are collaborators:
//! they hand the pipeline plain values and take plain values back.

pub mod dispatch;
pub mod encoding;
pub mod format;
pub mod jassdoc;
pub mod parse;
pub mod text;
