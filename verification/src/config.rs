//! The configuration of the bridge: which values it needs from the
//! environment, in which order they are looked for, and the address of the
//! console under which the bridged channel can be watched.

use crate::subject::{qualified, qualify};
use vstd::prelude::*;

verus! {

/// The remote bus is always reached at this address.
pub open spec fn remote_host() -> Seq<char> {
    "psdsn.pubnub.com:80"@
}

/// What the bridge runs on.
#[derive(Debug, PartialEq, Eq)]
pub struct Configuration {
    pub nats_host: String,
    pub nats_subject: String,
    pub nats_subject_root: String,
    pub pubnub_host: String,
    pub pubnub_channel: String,
    pub pubnub_channel_root: String,
    pub publish_key: String,
    pub subscribe_key: String,
    pub secret_key: String,
}

/// `Configuration` as contracts see it: every text a sequence of characters.
pub struct ConfigurationView {
    pub nats_host: Seq<char>,
    pub nats_subject: Seq<char>,
    pub nats_subject_root: Seq<char>,
    pub pubnub_host: Seq<char>,
    pub pubnub_channel: Seq<char>,
    pub pubnub_channel_root: Seq<char>,
    pub publish_key: Seq<char>,
    pub subscribe_key: Seq<char>,
    pub secret_key: Seq<char>,
}

impl View for Configuration {
    type V = ConfigurationView;

    open spec fn view(&self) -> ConfigurationView {
        ConfigurationView {
            nats_host: self.nats_host@,
            nats_subject: self.nats_subject@,
            nats_subject_root: self.nats_subject_root@,
            pubnub_host: self.pubnub_host@,
            pubnub_channel: self.pubnub_channel@,
            pubnub_channel_root: self.pubnub_channel_root@,
            publish_key: self.publish_key@,
            subscribe_key: self.subscribe_key@,
            secret_key: self.secret_key@,
        }
    }
}

/// A variable of the environment that the bridge cannot do without.
#[derive(Debug, Clone, Copy, PartialEq, Eq, Structural)]
pub enum Variable {
    NatsHost,
    NatsSubject,
    NatsSubjectRoot,
    PubnubChannel,
    PubnubChannelRoot,
    PublishKey,
    SubscribeKey,
    SecretKey,
}

/// The name under which a variable stands in the environment.
pub open spec fn variable_name(variable: Variable) -> Seq<char> {
    match variable {
        Variable::NatsHost => "NATS_HOST"@,
        Variable::NatsSubject => "NATS_SUBJECT"@,
        Variable::NatsSubjectRoot => "NATS_SUBJECT_ROOT"@,
        Variable::PubnubChannel => "PUBNUB_CHANNEL"@,
        Variable::PubnubChannelRoot => "PUBNUB_CHANNEL_ROOT"@,
        Variable::PublishKey => "PUBNUB_PUBLISH_KEY"@,
        Variable::SubscribeKey => "PUBNUB_SUBSCRIBE_KEY"@,
        Variable::SecretKey => "PUBNUB_SECRET_KEY"@,
    }
}

impl Variable {
    /// The name under which the variable stands in the environment.
    pub fn name(&self) -> (name: &'static str)
        ensures
            name@ == variable_name(*self),
    {
        match self {
            Variable::NatsHost => "NATS_HOST",
            Variable::NatsSubject => "NATS_SUBJECT",
            Variable::NatsSubjectRoot => "NATS_SUBJECT_ROOT",
            Variable::PubnubChannel => "PUBNUB_CHANNEL",
            Variable::PubnubChannelRoot => "PUBNUB_CHANNEL_ROOT",
            Variable::PublishKey => "PUBNUB_PUBLISH_KEY",
            Variable::SubscribeKey => "PUBNUB_SUBSCRIBE_KEY",
            Variable::SecretKey => "PUBNUB_SECRET_KEY",
        }
    }
}

/// What was found in the environment: for each variable its value, or `None`
/// where it is not set.
#[derive(Debug, PartialEq, Eq)]
pub struct Environment {
    pub nats_host: Option<String>,
    pub nats_subject: Option<String>,
    pub nats_subject_root: Option<String>,
    pub pubnub_channel: Option<String>,
    pub pubnub_channel_root: Option<String>,
    pub publish_key: Option<String>,
    pub subscribe_key: Option<String>,
    pub secret_key: Option<String>,
}

/// `Environment` as contracts see it: every text a sequence of characters.
pub struct EnvironmentView {
    pub nats_host: Option<Seq<char>>,
    pub nats_subject: Option<Seq<char>>,
    pub nats_subject_root: Option<Seq<char>>,
    pub pubnub_channel: Option<Seq<char>>,
    pub pubnub_channel_root: Option<Seq<char>>,
    pub publish_key: Option<Seq<char>>,
    pub subscribe_key: Option<Seq<char>>,
    pub secret_key: Option<Seq<char>>,
}

impl View for Environment {
    type V = EnvironmentView;

    open spec fn view(&self) -> EnvironmentView {
        EnvironmentView {
            nats_host: self.nats_host.deep_view(),
            nats_subject: self.nats_subject.deep_view(),
            nats_subject_root: self.nats_subject_root.deep_view(),
            pubnub_channel: self.pubnub_channel.deep_view(),
            pubnub_channel_root: self.pubnub_channel_root.deep_view(),
            publish_key: self.publish_key.deep_view(),
            subscribe_key: self.subscribe_key.deep_view(),
            secret_key: self.secret_key.deep_view(),
        }
    }
}

/// The first variable that is not set, in the order in which they are
/// looked for; `None` where all are set.
pub open spec fn first_missing(env: EnvironmentView) -> Option<Variable> {
    if env.nats_host is None {
        Some(Variable::NatsHost)
    } else if env.nats_subject is None {
        Some(Variable::NatsSubject)
    } else if env.nats_subject_root is None {
        Some(Variable::NatsSubjectRoot)
    } else if env.pubnub_channel is None {
        Some(Variable::PubnubChannel)
    } else if env.pubnub_channel_root is None {
        Some(Variable::PubnubChannelRoot)
    } else if env.publish_key is None {
        Some(Variable::PublishKey)
    } else if env.subscribe_key is None {
        Some(Variable::SubscribeKey)
    } else if env.secret_key is None {
        Some(Variable::SecretKey)
    } else {
        None
    }
}

/// The configuration that a complete environment gives.
pub open spec fn configured(env: EnvironmentView) -> ConfigurationView
    recommends
        first_missing(env) is None,
{
    ConfigurationView {
        nats_host: env.nats_host->0,
        nats_subject: env.nats_subject->0,
        nats_subject_root: env.nats_subject_root->0,
        pubnub_host: remote_host(),
        pubnub_channel: env.pubnub_channel->0,
        pubnub_channel_root: env.pubnub_channel_root->0,
        publish_key: env.publish_key->0,
        subscribe_key: env.subscribe_key->0,
        secret_key: env.secret_key->0,
    }
}

/// The address of the console for the bridged channel: the channel under its
/// root, and the two keys that a reader needs. The host name is followed by
/// two slashes.
pub open spec fn dashboard(c: ConfigurationView) -> Seq<char> {
    "https://www.pubnub.com//docs/console?channel="@ + qualified(
        c.pubnub_channel_root,
        c.pubnub_channel,
    ) + "&sub="@ + c.subscribe_key + "&pub="@ + c.publish_key
}

/// The line that the bridge prints when it starts.
pub open spec fn startup_line(c: ConfigurationView) -> Seq<char> {
    "{\"info\":\"Dashboard: "@ + dashboard(c) + "\"}"@
}

/// Makes the configuration from what the environment holds, or names the
/// first variable that is missing.
pub fn environment_variables(env: Environment) -> (made: Result<Configuration, Variable>)
    ensures
        match first_missing(env@) {
            Some(variable) => made is Err && made->Err_0 == variable,
            None => made is Ok && made->Ok_0@ == configured(env@),
        },
{
    let nats_host = match env.nats_host {
        Some(value) => value,
        None => return Err(Variable::NatsHost),
    };
    let nats_subject = match env.nats_subject {
        Some(value) => value,
        None => return Err(Variable::NatsSubject),
    };
    let nats_subject_root = match env.nats_subject_root {
        Some(value) => value,
        None => return Err(Variable::NatsSubjectRoot),
    };
    let pubnub_channel = match env.pubnub_channel {
        Some(value) => value,
        None => return Err(Variable::PubnubChannel),
    };
    let pubnub_channel_root = match env.pubnub_channel_root {
        Some(value) => value,
        None => return Err(Variable::PubnubChannelRoot),
    };
    let publish_key = match env.publish_key {
        Some(value) => value,
        None => return Err(Variable::PublishKey),
    };
    let subscribe_key = match env.subscribe_key {
        Some(value) => value,
        None => return Err(Variable::SubscribeKey),
    };
    let secret_key = match env.secret_key {
        Some(value) => value,
        None => return Err(Variable::SecretKey),
    };
    Ok(
        Configuration {
            nats_host,
            nats_subject,
            nats_subject_root,
            pubnub_host: "psdsn.pubnub.com:80".to_owned(),
            pubnub_channel,
            pubnub_channel_root,
            publish_key,
            subscribe_key,
            secret_key,
        },
    )
}

impl Configuration {
    /// Writes the address of the console.
    pub fn dashboard_url(&self) -> (url: String)
        ensures
            url@ == dashboard(self@),
    {
        let channel = qualify(self.pubnub_channel_root.as_str(), self.pubnub_channel.as_str());
        let mut url = "https://www.pubnub.com//docs/console?channel=".to_owned();
        url.append(channel.as_str());
        url.append("&sub=");
        url.append(self.subscribe_key.as_str());
        url.append("&pub=");
        url.append(self.publish_key.as_str());
        url
    }

    /// Writes the line that the bridge prints when it starts.
    pub fn startup_line(&self) -> (line: String)
        ensures
            line@ == startup_line(self@),
    {
        let url = self.dashboard_url();
        let mut line = "{\"info\":\"Dashboard: ".to_owned();
        line.append(url.as_str());
        line.append("\"}");
        line
    }
}

} // verus!
