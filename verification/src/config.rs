//! The settings that say where the target service is and how to sign in.

use vstd::prelude::*;
use crate::text::text_view;

verus! {

/// One of the five settings that a run needs.
#[derive(Clone, Copy, Debug, PartialEq, Eq, Structural)]
pub enum Setting {
    Host,
    Port,
    Scheme,
    Username,
    Password,
}

impl Setting {
    /// The name under which the setting is looked up.
    pub open spec fn spec_name(self) -> Seq<char> {
        match self {
            Setting::Host => "ADGUARD_IP"@,
            Setting::Port => "ADGUARD_PORT"@,
            Setting::Scheme => "ADGUARD_PROTOCOL"@,
            Setting::Username => "ADGUARD_USERNAME"@,
            Setting::Password => "ADGUARD_PASSWORD"@,
        }
    }

    /// The setting's value must not be shown.
    pub open spec fn spec_is_secret(self) -> bool {
        self == Setting::Password
    }

    /// What is shown for the setting when its value is `value`.
    pub open spec fn shown(self, value: Seq<char>) -> Seq<char> {
        if self.spec_is_secret() {
            "******"@
        } else {
            value
        }
    }

    /// The line that reports the setting's value.
    pub open spec fn spec_line(self, value: Seq<char>) -> Seq<char> {
        self.spec_name() + " is set to "@ + self.shown(value)
    }

    /// The name under which the setting is looked up.
    pub fn name(&self) -> (name: &'static str)
        ensures
            name@ == self.spec_name(),
    {
        match self {
            Setting::Host => "ADGUARD_IP",
            Setting::Port => "ADGUARD_PORT",
            Setting::Scheme => "ADGUARD_PROTOCOL",
            Setting::Username => "ADGUARD_USERNAME",
            Setting::Password => "ADGUARD_PASSWORD",
        }
    }

    /// Tells whether the setting's value must be kept off the screen.
    pub fn is_secret(&self) -> (secret: bool)
        ensures
            secret == self.spec_is_secret(),
    {
        match self {
            Setting::Password => true,
            _ => false,
        }
    }

    /// What is shown for the setting's value: the value itself, or asterisks
    /// where it is secret.
    pub fn display_value(&self, value: &str) -> (shown: String)
        ensures
            shown@ == self.shown(value@),
    {
        if self.is_secret() {
            String::from_str("******")
        } else {
            String::from_str(value)
        }
    }

    /// The line that reports the setting: its name and what is shown for its
    /// value.
    pub fn line(&self, value: &str) -> (line: String)
        ensures
            line@ == self.spec_line(value@),
    {
        let mut line = String::from_str(self.name());
        line.append(" is set to ");
        line.append(self.display_value(value).as_str());
        line
    }
}

/// Where the target service is and the credentials to sign in with.
#[derive(Clone, Debug, PartialEq, Eq)]
pub struct ConnectionConfig {
    pub host: String,
    pub port: String,
    /// `http` or `https`.
    pub scheme: String,
    pub username: String,
    pub password: String,
}

/// The mathematical value of a [`ConnectionConfig`].
pub ghost struct ConnectionConfigView {
    pub host: Seq<char>,
    pub port: Seq<char>,
    pub scheme: Seq<char>,
    pub username: Seq<char>,
    pub password: Seq<char>,
}

impl View for ConnectionConfig {
    type V = ConnectionConfigView;

    open spec fn view(&self) -> ConnectionConfigView {
        ConnectionConfigView {
            host: self.host@,
            port: self.port@,
            scheme: self.scheme@,
            username: self.username@,
            password: self.password@,
        }
    }
}

impl ConnectionConfigView {
    /// The target as it is named in messages: host, colon, port.
    pub open spec fn target(self) -> Seq<char> {
        self.host + ":"@ + self.port
    }
}

/// The first of the five settings, in the order host, port, scheme, username,
/// password, that has no value.
pub open spec fn first_missing(
    host: Option<Seq<char>>,
    port: Option<Seq<char>>,
    scheme: Option<Seq<char>>,
    username: Option<Seq<char>>,
    password: Option<Seq<char>>,
) -> Option<Setting> {
    if host is None {
        Some(Setting::Host)
    } else if port is None {
        Some(Setting::Port)
    } else if scheme is None {
        Some(Setting::Scheme)
    } else if username is None {
        Some(Setting::Username)
    } else if password is None {
        Some(Setting::Password)
    } else {
        None
    }
}

impl ConnectionConfig {
    pub fn new(
        host: String,
        port: String,
        scheme: String,
        username: String,
        password: String,
    ) -> (config: ConnectionConfig)
        ensures
            config@ == (ConnectionConfigView {
                host: host@,
                port: port@,
                scheme: scheme@,
                username: username@,
                password: password@,
            }),
    {
        ConnectionConfig { host, port, scheme, username, password }
    }

    /// Builds the configuration from the five values as they were looked up.
    /// Each must be present; nothing else is asked of them. Where some are
    /// absent, the error is the first absent one.
    pub fn from_values(
        host: Option<String>,
        port: Option<String>,
        scheme: Option<String>,
        username: Option<String>,
        password: Option<String>,
    ) -> (config: Result<ConnectionConfig, Setting>)
        ensures
            match first_missing(
                text_view(host),
                text_view(port),
                text_view(scheme),
                text_view(username),
                text_view(password),
            ) {
                Some(setting) => config == Err::<ConnectionConfig, Setting>(setting),
                None => config matches Ok(c) && c@ == (ConnectionConfigView {
                    host: host->0@,
                    port: port->0@,
                    scheme: scheme->0@,
                    username: username->0@,
                    password: password->0@,
                }),
            },
    {
        let host = match host {
            Some(value) => value,
            None => { return Err(Setting::Host); },
        };
        let port = match port {
            Some(value) => value,
            None => { return Err(Setting::Port); },
        };
        let scheme = match scheme {
            Some(value) => value,
            None => { return Err(Setting::Scheme); },
        };
        let username = match username {
            Some(value) => value,
            None => { return Err(Setting::Username); },
        };
        let password = match password {
            Some(value) => value,
            None => { return Err(Setting::Password); },
        };
        Ok(ConnectionConfig { host, port, scheme, username, password })
    }

    /// The target as it is named in messages: host, colon, port.
    pub fn target(&self) -> (target: String)
        ensures
            target@ == self@.target(),
    {
        let mut target = self.host.clone();
        target.append(":");
        target.append(self.port.as_str());
        target
    }
}

} // verus!
