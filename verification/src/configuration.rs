//! Configuration values handed to the engine at startup.
//!
//! The application reads its settings from the environment; the engine only
//! ever sees them as plain values of the types below.

use vstd::prelude::*;

verus! {

/// Credentials and target chat of the notification channel, loaded once at
/// startup and passed explicitly to whoever needs them.
pub struct TelegramBotConfiguration {
    pub token: String,
    pub chat_id: String,
}

} // verus!
