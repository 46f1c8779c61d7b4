//! Settings: what the command line and the environment must provide before the
//! loop may start.
//!
//! Nothing is read here. The caller collects the flags and the environment
//! variables as they were found, and [`Config::load`] either builds the
//! settings of the loop or names the first thing that is wrong.

use crate::notify::{
    channel_models, text_of, ChannelModel, EmailSettings, NotificationChannel, PushSettings,
};
use vstd::prelude::*;
use vstd::string::is_ascii_spec_bytes;

verus! {

/// The flags of the command line.
#[derive(Clone, Debug, PartialEq, Eq)]
pub struct Args {
    /// The label of the monitored host, if one was given.
    pub client: Option<String>,
    /// Notify by mail.
    pub email: bool,
    /// Notify by push message.
    pub ntfy: bool,
}

/// The mathematical value of [`Args`].
pub struct ArgsModel {
    pub client: Option<Seq<char>>,
    pub email: bool,
    pub ntfy: bool,
}

impl View for Args {
    type V = ArgsModel;

    open spec fn view(&self) -> ArgsModel {
        ArgsModel { client: text_of(self.client), email: self.email, ntfy: self.ntfy }
    }
}

/// A variable of the environment that the loop may need.
#[derive(Clone, Copy, Debug, PartialEq, Eq, Structural)]
pub enum Setting {
    RecheckInterval,
    SmtpUsername,
    SmtpPassword,
    SmtpHost,
    NtfyHost,
    NtfyToken,
    NtfyPriority,
}

impl Setting {
    /// The name of the variable.
    pub open spec fn key(self) -> Seq<char> {
        match self {
            Setting::RecheckInterval => "RECHECK_INTERVAL"@,
            Setting::SmtpUsername => "SMTP_USERNAME"@,
            Setting::SmtpPassword => "SMTP_PASSWORD"@,
            Setting::SmtpHost => "SMTP_HOST"@,
            Setting::NtfyHost => "NTFY_HOST"@,
            Setting::NtfyToken => "NTFY_TOKEN"@,
            Setting::NtfyPriority => "NTFY_PRIORITY"@,
        }
    }

    /// The name of the variable.
    pub fn name(&self) -> (name: &'static str)
        ensures
            name@ == self.key(),
    {
        match self {
            Setting::RecheckInterval => "RECHECK_INTERVAL",
            Setting::SmtpUsername => "SMTP_USERNAME",
            Setting::SmtpPassword => "SMTP_PASSWORD",
            Setting::SmtpHost => "SMTP_HOST",
            Setting::NtfyHost => "NTFY_HOST",
            Setting::NtfyToken => "NTFY_TOKEN",
            Setting::NtfyPriority => "NTFY_PRIORITY",
        }
    }
}

/// The variables of the environment, each as it was found: `None` stands for
/// a variable that is not set.
#[derive(Clone, Debug, PartialEq, Eq)]
pub struct Environment {
    pub recheck_interval: Option<String>,
    pub smtp_username: Option<String>,
    pub smtp_password: Option<String>,
    pub smtp_host: Option<String>,
    pub ntfy_host: Option<String>,
    pub ntfy_token: Option<String>,
    pub ntfy_priority: Option<String>,
}

/// The mathematical value of an [`Environment`].
pub struct EnvironmentModel {
    pub recheck_interval: Option<Seq<char>>,
    pub smtp_username: Option<Seq<char>>,
    pub smtp_password: Option<Seq<char>>,
    pub smtp_host: Option<Seq<char>>,
    pub ntfy_host: Option<Seq<char>>,
    pub ntfy_token: Option<Seq<char>>,
    pub ntfy_priority: Option<Seq<char>>,
}

impl View for Environment {
    type V = EnvironmentModel;

    open spec fn view(&self) -> EnvironmentModel {
        EnvironmentModel {
            recheck_interval: text_of(self.recheck_interval),
            smtp_username: text_of(self.smtp_username),
            smtp_password: text_of(self.smtp_password),
            smtp_host: text_of(self.smtp_host),
            ntfy_host: text_of(self.ntfy_host),
            ntfy_token: text_of(self.ntfy_token),
            ntfy_priority: text_of(self.ntfy_priority),
        }
    }
}

/// Why the loop cannot start.
#[derive(Clone, Copy, Debug, PartialEq, Eq, Structural)]
pub enum ConfigurationError {
    /// Neither channel was asked for.
    NoChannelEnabled,
    /// A variable that is needed is not set.
    Missing(Setting),
    /// The interval is not a number of seconds.
    InvalidInterval,
}

impl ConfigurationError {
    /// The text of the error.
    pub open spec fn text(self) -> Seq<char> {
        match self {
            ConfigurationError::NoChannelEnabled =>
                "No notification channel has been specified! Use -h for more info."@,
            ConfigurationError::Missing(setting) => setting.key() + " is not set"@,
            ConfigurationError::InvalidInterval => "RECHECK_INTERVAL is not a number of seconds"@,
        }
    }

    /// The text of the error.
    pub fn message(&self) -> (text: String)
        ensures
            text@ == self.text(),
    {
        match self {
            ConfigurationError::NoChannelEnabled => String::from_str(
                "No notification channel has been specified! Use -h for more info.",
            ),
            ConfigurationError::Missing(setting) => {
                let mut text = String::from_str(setting.name());
                text.append(" is not set");
                text
            },
            ConfigurationError::InvalidInterval => String::from_str(
                "RECHECK_INTERVAL is not a number of seconds",
            ),
        }
    }
}

/// All that the loop is started with.
#[derive(Clone, Debug, PartialEq, Eq)]
pub struct Config {
    /// The least number of seconds between two lookups.
    pub interval: u64,
    /// The label of the monitored host, if it has one.
    pub client_label: Option<String>,
    /// The enabled channels, in the order in which they are served.
    pub channels: Vec<NotificationChannel>,
}

/// The mathematical value of a [`Config`].
pub struct ConfigModel {
    pub interval: nat,
    pub client_label: Option<Seq<char>>,
    pub channels: Seq<ChannelModel>,
}

impl View for Config {
    type V = ConfigModel;

    open spec fn view(&self) -> ConfigModel {
        ConfigModel {
            interval: self.interval as nat,
            client_label: text_of(self.client_label),
            channels: channel_models(self.channels@),
        }
    }
}

/// A decimal digit.
pub open spec fn is_digit(c: char) -> bool {
    '0' <= c <= '9'
}

/// Every character is a decimal digit.
pub open spec fn all_digits(digits: Seq<char>) -> bool {
    forall|i: int| 0 <= i < digits.len() ==> is_digit(#[trigger] digits[i])
}

/// The number that a row of decimal digits stands for.
pub open spec fn digits_value(digits: Seq<char>) -> nat
    decreases digits.len(),
{
    if digits.len() == 0 {
        0
    } else {
        10 * digits_value(digits.drop_last()) + (digits.last() as int - '0' as int) as nat
    }
}

/// The digits of a number of seconds: the text without a leading `+`.
pub open spec fn digits_of(text: Seq<char>) -> Seq<char> {
    if text.len() > 0 && text[0] == '+' {
        text.skip(1)
    } else {
        text
    }
}

/// The number of seconds that `text` stands for: an optional `+`, followed by
/// at least one decimal digit and nothing else, with a value of at most
/// `u64::MAX`. Any other text stands for no number.
pub open spec fn seconds(text: Seq<char>) -> Option<u64> {
    let digits = digits_of(text);
    if digits.len() > 0 && all_digits(digits) && digits_value(digits) <= u64::MAX {
        Some(digits_value(digits) as u64)
    } else {
        None
    }
}

/// A row of digits is worth at least as much as each of its beginnings.
proof fn value_grows(digits: Seq<char>, k: int)
    requires
        0 <= k <= digits.len(),
        all_digits(digits),
    ensures
        digits_value(digits.take(k)) <= digits_value(digits),
    decreases digits.len(),
{
    if k == digits.len() {
        assert(digits.take(k) =~= digits);
    } else {
        let shorter = digits.drop_last();
        assert(shorter.take(k) =~= digits.take(k));
        assert(all_digits(shorter)) by {
            assert forall|i: int| 0 <= i < shorter.len() implies is_digit(#[trigger] shorter[i]) by {
                assert(shorter[i] == digits[i]);
            }
        }
        assert(is_digit(digits[digits.len() - 1]));
        value_grows(shorter, k);
    }
}

/// Reads a number of seconds, as [`seconds`] defines it.
pub fn parse_seconds(text: &str) -> (parsed: Option<u64>)
    ensures
        parsed == seconds(text@),
{
    let ghost digits = digits_of(text@);
    if !text.is_ascii() {
        proof {
            if all_digits(digits) {
                assert forall|i: int| 0 <= i < text@.len() implies '\0' <= #[trigger] text@[i]
                    <= '\u{7f}' by {
                    if text@[0] == '+' {
                        if i > 0 {
                            assert(is_digit(digits[i - 1]));
                        }
                    } else {
                        assert(is_digit(digits[i]));
                    }
                }
            }
        }
        return None;
    }
    let bytes = text.as_bytes();
    proof {
        is_ascii_spec_bytes(text);
    }
    let n = bytes.len();
    assert(n == text@.len());
    assert(forall|i: int| 0 <= i < n ==> '\0' <= #[trigger] text@[i] <= '\u{7f}');
    assert(forall|i: int| 0 <= i < n ==> bytes@[i] == #[trigger] text@[i] as u8);
    let start: usize = if n > 0 && bytes[0] == 43 {
        1
    } else {
        0
    };
    assert(digits == text@.skip(start as int)) by {
        if n > 0 {
            assert(bytes@[0] == text@[0] as u8);
        }
        assert(text@.skip(0) =~= text@);
    }
    if start == n {
        return None;
    }
    let mut value: u64 = 0;
    let mut i: usize = start;
    assert(digits.take(0) =~= Seq::<char>::empty());
    while i < n
        invariant
            start <= i <= n,
            n == text@.len(),
            n == bytes@.len(),
            digits == digits_of(text@),
            digits == text@.skip(start as int),
            digits.len() == n - start,
            forall|j: int| 0 <= j < n ==> '\0' <= #[trigger] text@[j] <= '\u{7f}',
            forall|j: int| 0 <= j < n ==> bytes@[j] == #[trigger] text@[j] as u8,
            all_digits(digits.take(i - start)),
            value == digits_value(digits.take(i - start)),
        decreases n - i,
    {
        let byte = bytes[i];
        let ghost seen = digits.take(i - start);
        let ghost longer = digits.take(i - start + 1);
        proof {
            assert(bytes@[i as int] == text@[i as int] as u8);
            assert(digits[i - start] == text@[i as int]);
            assert(longer.drop_last() =~= seen);
            assert(longer.last() == text@[i as int]);
        }
        if byte < 48 || byte > 57 {
            assert(!is_digit(digits[i - start]));
            assert(!all_digits(digits));
            return None;
        }
        proof {
            assert(is_digit(text@[i as int]));
            assert(all_digits(longer)) by {
                assert forall|j: int| 0 <= j < longer.len() implies is_digit(
                    #[trigger] longer[j],
                ) by {
                    if j < seen.len() {
                        assert(longer[j] == seen[j]);
                    }
                }
            }
            assert(digits_value(longer) == 10 * value + (byte - 48));
        }
        let next = match value.checked_mul(10) {
            Some(tens) => tens.checked_add((byte - 48) as u64),
            None => None,
        };
        match next {
            Some(sum) => {
                value = sum;
            },
            None => {
                proof {
                    assert(digits_value(longer) > u64::MAX);
                    if all_digits(digits) {
                        value_grows(digits, i - start + 1);
                    }
                }
                return None;
            },
        }
        i += 1;
    }
    assert(digits.take(n - start) =~= digits);
    Some(value)
}

/// The value of a variable that must be set.
pub open spec fn required(value: Option<Seq<char>>, setting: Setting) -> Result<
    Seq<char>,
    ConfigurationError,
> {
    match value {
        Some(text) => Ok(text),
        None => Err(ConfigurationError::Missing(setting)),
    }
}

/// The interval between two lookups: the variable must be set, and must hold
/// a number of seconds.
pub open spec fn interval_of(env: EnvironmentModel) -> Result<u64, ConfigurationError> {
    match env.recheck_interval {
        None => Err(ConfigurationError::Missing(Setting::RecheckInterval)),
        Some(text) => match seconds(text) {
            Some(interval) => Ok(interval),
            None => Err(ConfigurationError::InvalidInterval),
        },
    }
}

/// The mail channel: the account's name, its password and the host must be
/// set, and the first of them that is not is reported.
pub open spec fn email_of(env: EnvironmentModel) -> Result<ChannelModel, ConfigurationError> {
    match required(env.smtp_username, Setting::SmtpUsername) {
        Err(error) => Err(error),
        Ok(username) => match required(env.smtp_password, Setting::SmtpPassword) {
            Err(error) => Err(error),
            Ok(password) => match required(env.smtp_host, Setting::SmtpHost) {
                Err(error) => Err(error),
                Ok(host) => Ok(ChannelModel::Email { host, username, password }),
            },
        },
    }
}

/// The push channel: the host, the token and the priority must be set, and
/// the first of them that is not is reported.
pub open spec fn push_of(env: EnvironmentModel) -> Result<ChannelModel, ConfigurationError> {
    match required(env.ntfy_host, Setting::NtfyHost) {
        Err(error) => Err(error),
        Ok(host) => match required(env.ntfy_token, Setting::NtfyToken) {
            Err(error) => Err(error),
            Ok(token) => match required(env.ntfy_priority, Setting::NtfyPriority) {
                Err(error) => Err(error),
                Ok(priority) => Ok(ChannelModel::Push { host, token, priority }),
            },
        },
    }
}

/// The settings that the flags and the environment amount to. At least one
/// channel must be asked for; the interval must be a number of seconds; each
/// channel that is asked for must find its variables. The checks are made in
/// this order, mail before push, and the first failure is the result. The
/// channels are served in the order mail, push.
pub open spec fn loaded(args: ArgsModel, env: EnvironmentModel) -> Result<
    ConfigModel,
    ConfigurationError,
> {
    if !args.email && !args.ntfy {
        Err(ConfigurationError::NoChannelEnabled)
    } else if interval_of(env) is Err {
        Err(interval_of(env)->Err_0)
    } else if args.email && email_of(env) is Err {
        Err(email_of(env)->Err_0)
    } else if args.ntfy && push_of(env) is Err {
        Err(push_of(env)->Err_0)
    } else {
        let mail = if args.email {
            seq![email_of(env)->Ok_0]
        } else {
            Seq::empty()
        };
        let push = if args.ntfy {
            seq![push_of(env)->Ok_0]
        } else {
            Seq::empty()
        };
        Ok(
            ConfigModel {
                interval: interval_of(env)->Ok_0 as nat,
                client_label: args.client,
                channels: mail + push,
            },
        )
    }
}

impl Config {
    /// Builds the settings of the loop, or reports what is wrong, as
    /// [`loaded`] defines it.
    pub fn load(args: Args, env: Environment) -> (result: Result<Config, ConfigurationError>)
        ensures
            match result {
                Ok(config) => loaded(args@, env@) == Ok::<ConfigModel, ConfigurationError>(config@),
                Err(error) => loaded(args@, env@) == Err::<ConfigModel, ConfigurationError>(error),
            },
    {
        if !args.email && !args.ntfy {
            return Err(ConfigurationError::NoChannelEnabled);
        }
        let interval = match &env.recheck_interval {
            None => {
                return Err(ConfigurationError::Missing(Setting::RecheckInterval));
            },
            Some(text) => match parse_seconds(text.as_str()) {
                Some(interval) => interval,
                None => {
                    return Err(ConfigurationError::InvalidInterval);
                },
            },
        };
        let mut channels: Vec<NotificationChannel> = Vec::new();
        if args.email {
            let username = match env.smtp_username {
                Some(text) => text,
                None => {
                    return Err(ConfigurationError::Missing(Setting::SmtpUsername));
                },
            };
            let password = match env.smtp_password {
                Some(text) => text,
                None => {
                    return Err(ConfigurationError::Missing(Setting::SmtpPassword));
                },
            };
            let host = match env.smtp_host {
                Some(text) => text,
                None => {
                    return Err(ConfigurationError::Missing(Setting::SmtpHost));
                },
            };
            channels.push(NotificationChannel::Email(EmailSettings { host, username, password }));
        }
        if args.ntfy {
            let host = match env.ntfy_host {
                Some(text) => text,
                None => {
                    return Err(ConfigurationError::Missing(Setting::NtfyHost));
                },
            };
            let token = match env.ntfy_token {
                Some(text) => text,
                None => {
                    return Err(ConfigurationError::Missing(Setting::NtfyToken));
                },
            };
            let priority = match env.ntfy_priority {
                Some(text) => text,
                None => {
                    return Err(ConfigurationError::Missing(Setting::NtfyPriority));
                },
            };
            channels.push(NotificationChannel::Push(PushSettings { host, token, priority }));
        }
        let config = Config { interval, client_label: args.client, channels };
        assert(config@.channels =~= loaded(args@, env@)->Ok_0.channels);
        Ok(config)
    }
}

} // verus!
