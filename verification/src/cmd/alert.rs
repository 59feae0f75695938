//! The commands that configure alerts.

use vstd::prelude::*;
use vstd::string::*;

use crate::cli::{AlertCommand, AlertOptions, TelegramCommand};
use crate::db::alert::{
    delete_telegram_config, law_telegram_config_reads_as_set, set_telegram_config,
    telegram_config_of, telegram_writes, Alert, AlertSpec, TelegramConfig, TelegramSpec,
};
use crate::db::{
    apply_all, property, property_value, view_writes, Properties, PropertySpec, PropertyWrite,
};
use crate::time::Timestamp;

verus! {

/// What a command comes down to.
#[derive(Debug)]
pub enum AlertAction {
    /// Change some properties in one transaction.
    Store(Vec<PropertyWrite>),
    /// Send an alert.
    Send(Alert),
}

/// What a command comes down to, in mathematical terms.
pub enum ActionSpec {
    Store(Seq<PropertySpec>),
    Send(AlertSpec),
}

impl View for AlertAction {
    type V = ActionSpec;

    open spec fn view(&self) -> ActionSpec {
        match self {
            AlertAction::Store(writes) => ActionSpec::Store(view_writes(writes@)),
            AlertAction::Send(alert) => ActionSpec::Send(alert@),
        }
    }
}

/// The alert by which a user can see whether alerts arrive.
pub open spec fn test_alert(now: int) -> AlertSpec {
    AlertSpec { subject: "Test"@, message: "This is a test message."@, created_at: now }
}

/// What a command about Telegram comes down to.
pub open spec fn telegram_action(command: TelegramCommand) -> ActionSpec {
    match command {
        TelegramCommand::Enable(options) => ActionSpec::Store(
            telegram_writes(
                Some(
                    TelegramSpec { bot_token: options.bot_token@, chat_id: options.chat_id@ },
                ),
            ),
        ),
        TelegramCommand::Disable => ActionSpec::Store(telegram_writes(None)),
    }
}

/// What a command comes down to. There is no way to configure emails yet.
pub fn execute_command(alert_options: &AlertOptions, now: Timestamp) -> (res: AlertAction)
    requires
        !(alert_options.command is Email),
    ensures
        res@ == match alert_options.command {
            AlertCommand::Telegram(options) => telegram_action(options.command),
            _ => ActionSpec::Send(test_alert(now@)),
        },
{
    match &alert_options.command {
        AlertCommand::Telegram(telegram_options) => telegram_command(&telegram_options.command),
        _ => AlertAction::Send(test(now)),
    }
}

/// What a command about Telegram comes down to.
pub fn telegram_command(command: &TelegramCommand) -> (res: AlertAction)
    ensures
        res@ == telegram_action(*command),
{
    match command {
        TelegramCommand::Enable(options) => {
            let cfg = TelegramConfig {
                bot_token: options.bot_token.clone(),
                chat_id: options.chat_id.clone(),
            };
            AlertAction::Store(set_telegram_config(&cfg))
        },
        TelegramCommand::Disable => AlertAction::Store(delete_telegram_config()),
    }
}

/// The alert by which a user can see whether alerts arrive.
pub fn test(now: Timestamp) -> (res: Alert)
    ensures
        res@ == test_alert(now@),
{
    Alert {
        subject: "Test".to_string(),
        message: "This is a test message.".to_string(),
        created_at: now,
    }
}

/// Once Telegram has been enabled, alerts are sent with the token and the chat of the options.
/// Once it has been disabled, they are not sent. No other property changes.
pub proof fn law_telegram_commands_configure(
    command: TelegramCommand,
    properties: Properties,
    other: Seq<char>,
)
    requires
        other != property::TELEGRAM_BOT_TOKEN@,
        other != property::TELEGRAM_CHAT_ID@,
    ensures
        telegram_action(command) matches ActionSpec::Store(writes) && {
            let after = apply_all(writes, properties);
            let cfg = telegram_config_of(
                property_value(after, property::TELEGRAM_BOT_TOKEN@),
                property_value(after, property::TELEGRAM_CHAT_ID@),
            );
            &&& command is Disable ==> cfg is None
            &&& command matches TelegramCommand::Enable(options) ==> cfg == Some(
                TelegramSpec { bot_token: options.bot_token@, chat_id: options.chat_id@ },
            )
            &&& property_value(after, other) == property_value(properties, other)
        },
{
    let cfg = match command {
        TelegramCommand::Enable(options) => Some(
            TelegramSpec { bot_token: options.bot_token@, chat_id: options.chat_id@ },
        ),
        TelegramCommand::Disable => None,
    };
    law_telegram_config_reads_as_set(cfg, properties, other);
}

/// The test alert is always the same but for its date.
pub proof fn law_test_alert(now: int)
    ensures
        test_alert(now).subject == "Test"@,
        test_alert(now).message == "This is a test message."@,
        test_alert(now).created_at == now,
{
}

/// What is shown of an action are its changes or its alert.
pub proof fn law_view_of_an_action(writes: Vec<PropertyWrite>, alert: Alert)
    ensures
        AlertAction::Store(writes)@ == ActionSpec::Store(view_writes(writes@)),
        AlertAction::Send(alert)@ == ActionSpec::Send(alert@),
{
}

} // verus!
