//! Names of the properties that are stored in the database.

use vstd::prelude::*;

verus! {

pub const SCHEMA_VERSION: &'static str = "schema_version";

pub const CREATED_AT: &'static str = "created_at";

pub const DOMAIN: &'static str = "domain";

pub const TELEGRAM_BOT_TOKEN: &'static str = "telegram_bot_token";

pub const TELEGRAM_CHAT_ID: &'static str = "telegram_chat_id";

} // verus!
