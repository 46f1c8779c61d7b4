//! Notifications: what a detected change looks like on each channel.
//!
//! Nothing here sends anything. A [`Delivery`] holds all that one send needs,
//! and each delivery depends on the event and on its own channel alone, so a
//! channel that fails takes nothing from the others.

use vstd::prelude::*;

verus! {

/// Seconds granted to one send before it counts as failed.
pub const SEND_TIMEOUT_SECS: u64 = 30;

/// The view of an optional text.
pub open spec fn text_of(text: Option<String>) -> Option<Seq<char>> {
    match text {
        Some(t) => Some(t@),
        None => None,
    }
}

/// A change of address: the address seen before, if there was one, the
/// address seen now, and the label of the monitored host, if it has one.
#[derive(Clone, Debug, PartialEq, Eq)]
pub struct ChangeEvent {
    pub previous: Option<String>,
    pub current: String,
    pub client_label: Option<String>,
}

/// The mathematical value of a [`ChangeEvent`].
pub struct ChangeModel {
    pub previous: Option<Seq<char>>,
    pub current: Seq<char>,
    pub client_label: Option<Seq<char>>,
}

impl View for ChangeEvent {
    type V = ChangeModel;

    open spec fn view(&self) -> ChangeModel {
        ChangeModel {
            previous: text_of(self.previous),
            current: self.current@,
            client_label: text_of(self.client_label),
        }
    }
}

/// How to reach the mail server. The account's address is both the sender and
/// the recipient of every mail.
#[derive(Clone, Debug, PartialEq, Eq)]
pub struct EmailSettings {
    pub host: String,
    pub username: String,
    pub password: String,
}

/// How to reach the push service.
#[derive(Clone, Debug, PartialEq, Eq)]
pub struct PushSettings {
    pub host: String,
    pub token: String,
    pub priority: String,
}

/// One enabled way of telling the owner, with its own settings.
#[derive(Debug, PartialEq, Eq)]
pub enum NotificationChannel {
    Email(EmailSettings),
    Push(PushSettings),
}

/// The mathematical value of a [`NotificationChannel`].
pub enum ChannelModel {
    Email { host: Seq<char>, username: Seq<char>, password: Seq<char> },
    Push { host: Seq<char>, token: Seq<char>, priority: Seq<char> },
}

impl View for NotificationChannel {
    type V = ChannelModel;

    open spec fn view(&self) -> ChannelModel {
        match *self {
            NotificationChannel::Email(settings) => ChannelModel::Email {
                host: settings.host@,
                username: settings.username@,
                password: settings.password@,
            },
            NotificationChannel::Push(settings) => ChannelModel::Push {
                host: settings.host@,
                token: settings.token@,
                priority: settings.priority@,
            },
        }
    }
}

/// The values of a list of channels, in the same order.
pub open spec fn channel_models(channels: Seq<NotificationChannel>) -> Seq<ChannelModel> {
    Seq::new(channels.len(), |i: int| channels[i]@)
}

/// The text of a notification: the subject of a mail or the title of a push
/// message, and the body of either.
#[derive(Clone, Debug, PartialEq, Eq)]
pub struct Message {
    pub title: String,
    pub body: String,
}

/// The mathematical value of a [`Message`].
pub struct MessageModel {
    pub title: Seq<char>,
    pub body: Seq<char>,
}

impl View for Message {
    type V = MessageModel;

    open spec fn view(&self) -> MessageModel {
        MessageModel { title: self.title@, body: self.body@ }
    }
}

/// One send: the channel to use, the message to hand it, and the seconds after
/// which the attempt is given up.
#[derive(Clone, Debug, PartialEq, Eq)]
pub struct Delivery {
    pub channel: NotificationChannel,
    pub message: Message,
    pub timeout_secs: u64,
}

/// The mathematical value of a [`Delivery`].
pub struct DeliveryModel {
    pub channel: ChannelModel,
    pub message: MessageModel,
    pub timeout_secs: u64,
}

impl View for Delivery {
    type V = DeliveryModel;

    open spec fn view(&self) -> DeliveryModel {
        DeliveryModel {
            channel: self.channel@,
            message: self.message@,
            timeout_secs: self.timeout_secs,
        }
    }
}

/// The values of a list of deliveries, in the same order.
pub open spec fn delivery_models(deliveries: Seq<Delivery>) -> Seq<DeliveryModel> {
    Seq::new(deliveries.len(), |i: int| deliveries[i]@)
}

/// The title of a notification: the label followed by ` IP has changed`, with
/// `Home` in place of a missing label.
pub open spec fn title_of(label: Option<Seq<char>>) -> Seq<char> {
    match label {
        Some(name) => name + " IP has changed"@,
        None => "Home IP has changed"@,
    }
}

/// The body of a notification. With a previous address it reads
/// `<label> IP has changed from "<previous>" to "<current>"`, with `Your home`
/// in place of a missing label; without one it reads `External IP "<current>"`.
pub open spec fn body_of(event: ChangeModel) -> Seq<char> {
    match event.previous {
        Some(previous) => {
            let host = match event.client_label {
                Some(name) => name,
                None => "Your home"@,
            };
            host + " IP has changed from \""@ + previous + "\" to \""@ + event.current + "\""@
        },
        None => "External IP \""@ + event.current + "\""@,
    }
}

/// The message that announces `event`.
pub open spec fn message_for(event: ChangeModel) -> MessageModel {
    MessageModel { title: title_of(event.client_label), body: body_of(event) }
}

/// The send that announces `event` on `channel`.
pub open spec fn delivery_for(event: ChangeModel, channel: ChannelModel) -> DeliveryModel {
    DeliveryModel { channel, message: message_for(event), timeout_secs: SEND_TIMEOUT_SECS }
}

/// One send for each channel, in the order of the channels.
pub open spec fn dispatch_plan(event: ChangeModel, channels: Seq<ChannelModel>) -> Seq<
    DeliveryModel,
> {
    Seq::new(channels.len(), |i: int| delivery_for(event, channels[i]))
}

impl Clone for NotificationChannel {
    /// A copy of the channel with the same settings.
    fn clone(&self) -> (copy: NotificationChannel)
        ensures
            copy@ == self@,
    {
        match self {
            NotificationChannel::Email(settings) => NotificationChannel::Email(
                EmailSettings {
                    host: settings.host.clone(),
                    username: settings.username.clone(),
                    password: settings.password.clone(),
                },
            ),
            NotificationChannel::Push(settings) => NotificationChannel::Push(
                PushSettings {
                    host: settings.host.clone(),
                    token: settings.token.clone(),
                    priority: settings.priority.clone(),
                },
            ),
        }
    }
}

impl EmailSettings {
    /// The address that every mail is sent from and sent to: the name of the
    /// account.
    pub fn address(&self) -> (address: &String)
        ensures
            address@ == self.username@,
    {
        &self.username
    }
}

impl NotificationChannel {
    /// Prepares the send that announces `event` on this channel.
    pub fn deliver(&self, event: &ChangeEvent) -> (delivery: Delivery)
        ensures
            delivery@ == delivery_for(event@, self@),
    {
        Delivery { channel: self.clone(), message: compose(event), timeout_secs: SEND_TIMEOUT_SECS }
    }
}

/// Writes the message that announces `event`.
pub fn compose(event: &ChangeEvent) -> (message: Message)
    ensures
        message@ == message_for(event@),
{
    let title = match &event.client_label {
        Some(name) => {
            let mut text = name.clone();
            text.append(" IP has changed");
            text
        },
        None => String::from_str("Home IP has changed"),
    };
    let body = match &event.previous {
        Some(previous) => {
            let mut text = match &event.client_label {
                Some(name) => name.clone(),
                None => String::from_str("Your home"),
            };
            text.append(" IP has changed from \"");
            text.append(previous.as_str());
            text.append("\" to \"");
            text.append(event.current.as_str());
            text.append("\"");
            text
        },
        None => {
            let mut text = String::from_str("External IP \"");
            text.append(event.current.as_str());
            text.append("\"");
            text
        },
    };
    Message { title, body }
}

/// Prepares the sends that announce `event`: exactly one for each channel, in
/// the order of the channels, each made from the event and its own channel.
pub fn dispatch(event: &ChangeEvent, channels: &Vec<NotificationChannel>) -> (deliveries: Vec<
    Delivery,
>)
    ensures
        delivery_models(deliveries@) == dispatch_plan(event@, channel_models(channels@)),
{
    let mut deliveries: Vec<Delivery> = Vec::new();
    let mut i: usize = 0;
    while i < channels.len()
        invariant
            i <= channels.len(),
            deliveries.len() == i,
            forall|j: int| 0 <= j < i ==> deliveries[j]@ == delivery_for(event@, channels[j]@),
        decreases channels.len() - i,
    {
        deliveries.push(channels[i].deliver(event));
        i += 1;
    }
    assert(delivery_models(deliveries@) =~= dispatch_plan(event@, channel_models(channels@)));
    deliveries
}

} // verus!
