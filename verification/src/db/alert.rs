//! Alerts, and the channels by which they are sent.

use vstd::prelude::*;
use vstd::string::*;

use crate::db::{
    apply_all, lemma_property_names, property, property_value, set_property, view_text,
    view_writes, Properties, PropertySpec, PropertyWrite,
};
use crate::time::{view_opt, Timestamp};

verus! {

/// Something that somebody has to be told.
#[derive(Debug, Clone, PartialEq, Eq)]
pub struct Alert {
    pub subject: String,
    pub message: String,
    pub created_at: Timestamp,
}

/// Something that somebody has to be told, in mathematical terms.
pub struct AlertSpec {
    pub subject: Seq<char>,
    pub message: Seq<char>,
    pub created_at: int,
}

impl View for Alert {
    type V = AlertSpec;

    open spec fn view(&self) -> AlertSpec {
        AlertSpec {
            subject: self.subject@,
            message: self.message@,
            created_at: self.created_at@,
        }
    }
}

/// A way to send alerts.
#[derive(Debug, Clone, Copy, PartialEq, Eq, Structural)]
pub enum Channel {
    Email,
    Telegram,
}

impl Channel {
    /// All channels, in the order in which alerts are sent.
    pub const ALL: [Channel; 2] = [Channel::Email, Channel::Telegram];

    /// The name of the channel.
    pub open spec fn text(self) -> Seq<char> {
        match self {
            Channel::Email => "email"@,
            Channel::Telegram => "telegram"@,
        }
    }

    /// The name of the channel.
    pub fn as_str(self) -> (res: &'static str)
        ensures
            res@ == self.text(),
    {
        match self {
            Channel::Email => "email",
            Channel::Telegram => "telegram",
        }
    }
}

/// What it takes to send alerts by Telegram.
#[derive(Debug)]
pub struct TelegramConfig {
    pub bot_token: String,
    pub chat_id: String,
}

/// What it takes to send alerts by Telegram, in mathematical terms.
pub struct TelegramSpec {
    pub bot_token: Seq<char>,
    pub chat_id: Seq<char>,
}

impl View for TelegramConfig {
    type V = TelegramSpec;

    open spec fn view(&self) -> TelegramSpec {
        TelegramSpec { bot_token: self.bot_token@, chat_id: self.chat_id@ }
    }
}

/// The view of a configuration that may be missing.
pub open spec fn view_config(cfg: Option<TelegramConfig>) -> Option<TelegramSpec> {
    match cfg {
        Some(cfg) => Some(cfg@),
        None => None,
    }
}

/// The changes that store the given configuration, or remove the stored one.
pub open spec fn telegram_writes(cfg: Option<TelegramSpec>) -> Seq<PropertySpec> {
    seq![
        PropertySpec {
            name: property::TELEGRAM_BOT_TOKEN@,
            value: match cfg {
                Some(cfg) => Some(cfg.bot_token),
                None => None,
            },
        },
        PropertySpec {
            name: property::TELEGRAM_CHAT_ID@,
            value: match cfg {
                Some(cfg) => Some(cfg.chat_id),
                None => None,
            },
        },
    ]
}

/// The configuration that two properties stand for: both are needed.
pub open spec fn telegram_config_of(
    bot_token: Option<Seq<char>>,
    chat_id: Option<Seq<char>>,
) -> Option<TelegramSpec> {
    match (bot_token, chat_id) {
        (Some(bot_token), Some(chat_id)) => Some(TelegramSpec { bot_token, chat_id }),
        _ => None,
    }
}

/// The changes that store a configuration. They belong into one transaction.
pub fn set_telegram_config(cfg: &TelegramConfig) -> (res: Vec<PropertyWrite>)
    ensures
        view_writes(res@) == telegram_writes(Some(cfg@)),
{
    let mut res: Vec<PropertyWrite> = Vec::new();
    res.push(set_property(property::TELEGRAM_BOT_TOKEN, Some(cfg.bot_token.as_str())));
    res.push(set_property(property::TELEGRAM_CHAT_ID, Some(cfg.chat_id.as_str())));
    assert(view_writes(res@) =~= telegram_writes(Some(cfg@)));
    res
}

/// The changes that remove the configuration. They belong into one transaction.
pub fn delete_telegram_config() -> (res: Vec<PropertyWrite>)
    ensures
        view_writes(res@) == telegram_writes(None),
{
    let mut res: Vec<PropertyWrite> = Vec::new();
    res.push(set_property(property::TELEGRAM_BOT_TOKEN, None));
    res.push(set_property(property::TELEGRAM_CHAT_ID, None));
    assert(view_writes(res@) =~= telegram_writes(None));
    res
}

/// The configuration that the two properties stand for.
pub fn get_telegram_config(bot_token: Option<String>, chat_id: Option<String>) -> (res: Option<
    TelegramConfig,
>)
    ensures
        view_config(res) == telegram_config_of(view_text(bot_token), view_text(chat_id)),
{
    match (bot_token, chat_id) {
        (Some(bot_token), Some(chat_id)) => Some(TelegramConfig { bot_token, chat_id }),
        _ => None,
    }
}

/// The configuration reads as it was last stored or removed, whatever was there before, and no
/// other property changes.
pub proof fn law_telegram_config_reads_as_set(
    cfg: Option<TelegramSpec>,
    properties: Properties,
    other: Seq<char>,
)
    requires
        other != property::TELEGRAM_BOT_TOKEN@,
        other != property::TELEGRAM_CHAT_ID@,
    ensures
        ({
            let after = apply_all(telegram_writes(cfg), properties);
            &&& telegram_config_of(
                property_value(after, property::TELEGRAM_BOT_TOKEN@),
                property_value(after, property::TELEGRAM_CHAT_ID@),
            ) == cfg
            &&& property_value(after, other) == property_value(properties, other)
        }),
{
    reveal_with_fuel(apply_all, 3);
    let writes = telegram_writes(cfg);
    assert(writes.drop_last().drop_last() =~= Seq::<PropertySpec>::empty());
    assert(writes.drop_last().last() == writes[0]);
    lemma_property_names();
}

/// Why an alert was not sent.
#[derive(Debug)]
pub enum SendError {
    /// The channel has not been configured.
    NotConfigured,
    /// Something went wrong.
    Other(String),
}

impl SendError {
    /// The message of the error.
    pub open spec fn text(self) -> Seq<char> {
        match self {
            SendError::NotConfigured => "channel has not been configured."@,
            SendError::Other(message) => message@,
        }
    }

    /// The message of the error.
    pub fn message(&self) -> (res: String)
        ensures
            res@ == self.text(),
    {
        match self {
            SendError::NotConfigured => "channel has not been configured.".to_string(),
            SendError::Other(message) => message.clone(),
        }
    }
}

/// Sends an alert by email. There is no way to configure this yet.
pub fn send_email(alert: &Alert) -> (res: Result<(), SendError>)
    ensures
        res == Err::<(), SendError>(SendError::NotConfigured),
{
    Err(SendError::NotConfigured)
}

/// A message to be sent by Telegram: where to, and what.
#[derive(Debug)]
pub struct TelegramRequest {
    pub url: String,
    pub parse_mode: String,
    pub chat_id: String,
    pub text: String,
}

/// The address of the bot that sends a message.
pub open spec fn telegram_url(bot_token: Seq<char>) -> Seq<char> {
    "https://api.telegram.org/bot"@ + bot_token + "/sendMessage"@
}

/// An alert as the text of a message.
pub open spec fn telegram_text(alert: AlertSpec) -> Seq<char> {
    "<b>"@ + alert.subject + "</b>\n"@ + alert.message
}

/// The request that sends an alert by Telegram. It takes a configuration.
pub fn send_telegram(cfg: Option<TelegramConfig>, alert: &Alert) -> (res: Result<
    TelegramRequest,
    SendError,
>)
    ensures
        match view_config(cfg) {
            None => res == Err::<TelegramRequest, SendError>(SendError::NotConfigured),
            Some(cfg) => {
                &&& res is Ok
                &&& res->Ok_0.url@ == telegram_url(cfg.bot_token)
                &&& res->Ok_0.parse_mode@ == "HTML"@
                &&& res->Ok_0.chat_id@ == cfg.chat_id
                &&& res->Ok_0.text@ == telegram_text(alert@)
            },
        },
{
    match cfg {
        None => Err(SendError::NotConfigured),
        Some(cfg) => {
            let mut url: String = "https://api.telegram.org/bot".to_string();
            url.append(cfg.bot_token.as_str());
            url.append("/sendMessage");
            let mut text: String = "<b>".to_string();
            text.append(alert.subject.as_str());
            text.append("</b>\n");
            text.append(alert.message.as_str());
            Ok(TelegramRequest { url, parse_mode: "HTML".to_string(), chat_id: cfg.chat_id, text })
        },
    }
}

/// Why Telegram did not send a message.
pub open spec fn telegram_failure(description: Option<Seq<char>>) -> Seq<char> {
    "Telegram: failed to send message: "@ + match description {
        Some(description) => description,
        None => "<unkown error>"@,
    }
}

/// What Telegram's answer means: whether the message was sent, and if not, why.
pub fn telegram_response(ok: bool, description: Option<String>) -> (res: Result<(), SendError>)
    ensures
        if ok {
            res is Ok
        } else {
            &&& res is Err
            &&& res->Err_0 is Other
            &&& res->Err_0.text() == telegram_failure(view_text(description))
        },
{
    if ok {
        return Ok(());
    }
    let description: String = match description {
        Some(description) => description,
        None => "<unkown error>".to_string(),
    };
    let mut message: String = "Telegram: failed to send message: ".to_string();
    message.append(description.as_str());
    Err(SendError::Other(message))
}

/// An entry in the history of alerts.
#[derive(Debug)]
pub struct AlertRecord {
    pub subject: String,
    pub message: String,
    pub channel: String,
    pub created_at: Timestamp,
    pub delivered_at: Option<Timestamp>,
}

/// An entry in the history of alerts, in mathematical terms.
pub struct RecordSpec {
    pub alert: AlertSpec,
    pub channel: Seq<char>,
    pub delivered_at: Option<int>,
}

impl View for AlertRecord {
    type V = RecordSpec;

    open spec fn view(&self) -> RecordSpec {
        RecordSpec {
            alert: AlertSpec {
                subject: self.subject@,
                message: self.message@,
                created_at: self.created_at@,
            },
            channel: self.channel@,
            delivered_at: view_opt(self.delivered_at),
        }
    }
}

/// The entry for an alert that was handed to a channel.
pub fn record(channel: &str, alert: &Alert, delivered: bool, now: Timestamp) -> (res: AlertRecord)
    ensures
        res@ == (RecordSpec {
            alert: alert@,
            channel: channel@,
            delivered_at: if delivered {
                Some(now@)
            } else {
                None
            },
        }),
{
    AlertRecord {
        subject: alert.subject.clone(),
        message: alert.message.clone(),
        channel: channel.to_string(),
        created_at: alert.created_at,
        delivered_at: if delivered {
            Some(now)
        } else {
            None
        },
    }
}

/// What became of an alert on one channel.
pub open spec fn delivery(
    channel: Channel,
    alert: AlertSpec,
    result: Result<(), SendError>,
    now: int,
) -> Option<RecordSpec> {
    match result {
        Ok(_) => Some(
            RecordSpec { alert: alert, channel: channel.text(), delivered_at: Some(now) },
        ),
        Err(SendError::NotConfigured) => None,
        Err(SendError::Other(_)) => Some(
            RecordSpec { alert: alert, channel: channel.text(), delivered_at: None },
        ),
    }
}

/// The view of an entry that may be missing.
pub open spec fn view_record(record: Option<AlertRecord>) -> Option<RecordSpec> {
    match record {
        Some(r) => Some(r@),
        None => None,
    }
}

/// An alert on its way through the channels. Its view is the number of channels that are done.
#[derive(Debug)]
pub struct AlertSend {
    done: usize,
}

impl View for AlertSend {
    type V = int;

    closed spec fn view(&self) -> int {
        self.done as int
    }
}

/// The channel that comes after the given number of them.
pub open spec fn channel_after(done: int) -> Option<Channel> {
    if 0 <= done < Channel::ALL@.len() {
        Some(Channel::ALL@[done])
    } else {
        None
    }
}

impl AlertSend {
    /// No channel is done yet.
    pub fn new() -> (res: Self)
        ensures
            res@ == 0,
    {
        AlertSend { done: 0 }
    }

    /// The channel by which the alert is to be sent next, if there is one left.
    pub fn channel(&self) -> (res: Option<Channel>)
        ensures
            res == channel_after(self@),
    {
        if self.done < Channel::ALL.len() {
            Some(Channel::ALL[self.done])
        } else {
            None
        }
    }

    /// The channel is done with the given result. What the history is to say about it, if
    /// anything: a channel that is not configured leaves no trace.
    pub fn send(&mut self, alert: &Alert, result: &Result<(), SendError>, now: Timestamp) -> (res:
        Option<AlertRecord>)
        requires
            channel_after(old(self)@) is Some,
        ensures
            final(self)@ == old(self)@ + 1,
            view_record(res) == delivery(channel_after(old(self)@)->0, alert@, *result, now@),
    {
        let channel: Channel = Channel::ALL[self.done];
        self.done = self.done + 1;
        let delivered: bool = match result {
            Ok(_) => true,
            Err(SendError::NotConfigured) => {
                return None;
            },
            Err(SendError::Other(_)) => false,
        };
        Some(record(channel.as_str(), alert, delivered, now))
    }
}

/// An alert goes through every channel once, in order: first email, then Telegram.
pub proof fn law_every_channel_once(channel: Channel, done: int)
    ensures
        channel_after(0) == Some(Channel::Email),
        channel_after(1) == Some(Channel::Telegram),
        done >= 2 ==> channel_after(done) is None,
        channel_after(done) == Some(channel) <==> done == if channel == Channel::Email {
            0int
        } else {
            1int
        },
{
}

/// The history has an entry for an alert on a channel if and only if the channel is configured,
/// and the entry has a date of delivery if and only if the alert was sent.
pub proof fn law_history_tells_what_was_sent(
    channel: Channel,
    alert: AlertSpec,
    result: Result<(), SendError>,
    now: int,
)
    ensures
        delivery(channel, alert, result, now) is None <==> result == Err::<(), SendError>(
            SendError::NotConfigured,
        ),
        delivery(channel, alert, result, now) matches Some(r) ==> {
            &&& r.alert == alert
            &&& r.delivered_at is Some <==> result is Ok
        },
{
}

/// Alerts can be sent by Telegram if and only if both properties are there, and with what they
/// say.
pub proof fn law_telegram_takes_both_properties(
    bot_token: Option<Seq<char>>,
    chat_id: Option<Seq<char>>,
)
    ensures
        telegram_config_of(bot_token, chat_id) is Some <==> bot_token is Some && chat_id is Some,
        telegram_config_of(bot_token, chat_id) matches Some(cfg) ==> bot_token == Some(
            cfg.bot_token,
        ) && chat_id == Some(cfg.chat_id),
{
}

/// A message goes to the bot with the token, and it holds the subject and the message of the
/// alert, whatever they are.
pub proof fn law_telegram_message_is_the_alert(bot_token: Seq<char>, alert: AlertSpec)
    ensures
        telegram_url(bot_token) == "https://api.telegram.org/bot"@ + bot_token + "/sendMessage"@,
        telegram_text(alert) == "<b>"@ + alert.subject + "</b>\n"@ + alert.message,
{
}

/// What Telegram says about a failure is passed on.
pub proof fn law_telegram_failure_is_told(description: Seq<char>)
    ensures
        telegram_failure(Some(description)) == "Telegram: failed to send message: "@ + description,
        telegram_failure(None) == "Telegram: failed to send message: "@ + "<unkown error>"@,
{
}

/// The history names the channel, holds the alert, and dates the delivery to when it took place.
/// A failed delivery is there without a date.
pub proof fn law_history_dates_deliveries(
    channel: Channel,
    alert: AlertSpec,
    message: String,
    now: int,
)
    ensures
        delivery(channel, alert, Ok(()), now) matches Some(r) && r.alert == alert && r.channel
            == channel.text() && r.delivered_at == Some(now),
        delivery(channel, alert, Err(SendError::Other(message)), now) matches Some(r) && r.alert
            == alert && r.channel == channel.text() && r.delivered_at is None,
        delivery(channel, alert, Err(SendError::NotConfigured), now) is None,
{
}

/// Channels and errors are called by their names.
pub proof fn law_names_of_channels_and_errors(channel: Channel, message: String)
    ensures
        channel.text() == "email"@ <==> channel == Channel::Email,
        channel.text() == "telegram"@ <==> channel == Channel::Telegram,
        SendError::NotConfigured.text() == "channel has not been configured."@,
        SendError::Other(message).text() == message@,
{
    reveal_strlit("email");
    reveal_strlit("telegram");
    assert("email"@.len() == 5 && "telegram"@.len() == 8);
}

/// What is shown of an alert and of a configuration are their fields.
pub proof fn law_views_show_the_fields(alert: Alert, cfg: TelegramConfig)
    ensures
        alert@.subject == alert.subject@,
        alert@.message == alert.message@,
        alert@.created_at == alert.created_at@,
        cfg@.bot_token == cfg.bot_token@,
        cfg@.chat_id == cfg.chat_id@,
        view_config(Some(cfg)) == Some(cfg@),
        view_config(None) is None,
{
}

/// What is shown of an entry in the history are its fields.
pub proof fn law_view_of_an_entry(r: AlertRecord)
    ensures
        view_record(Some(r)) == Some(r@),
        view_record(None) is None,
        r@.alert.subject == r.subject@,
        r@.alert.message == r.message@,
        r@.alert.created_at == r.created_at@,
        r@.channel == r.channel@,
        r.delivered_at is None <==> r@.delivered_at is None,
        r.delivered_at matches Some(t) ==> r@.delivered_at == Some(t@),
{
}

} // verus!
