//! The settings of the service, as plain values.

use crate::domain::subscriber_email::{is_valid_email, SubscriberEmail};
use crate::secret::Secret;
use crate::text::text_equals;
use vstd::prelude::*;

verus! {

/// The lowercase equivalent of a text, as `str::to_lowercase` gives it.
pub uninterp spec fn lowercase(s: Seq<char>) -> Seq<char>;

/// `str::to_lowercase` returns the lowercase equivalent of the text as a new
/// `String`. The mapping follows the Unicode character database and is not
/// restated here.
pub assume_specification[ str::to_lowercase ](s: &str) -> (lower: String)
    ensures
        lower@ == lowercase(s@),
;

/// The runtime environment the service was started for.
#[derive(Clone, Copy, Debug, PartialEq, Eq, Structural)]
pub enum Environment {
    Local,
    Production,
}

impl Environment {
    /// The name of the environment, as used for its settings file.
    pub open spec fn name(self) -> Seq<char> {
        match self {
            Environment::Local => "local"@,
            Environment::Production => "production"@,
        }
    }

    /// The name of the environment.
    pub fn as_str(&self) -> (name: &'static str)
        ensures
            name@ == self.name(),
    {
        match self {
            Environment::Local => "local",
            Environment::Production => "production",
        }
    }

    /// The message for a text that names no environment.
    pub open spec fn rejection(lowered: Seq<char>) -> Seq<char> {
        lowered + " is not supported environment. Try to use `local` or `production`"@
    }

    /// The environment that `value` names, whatever the case of its letters.
    pub open spec fn named_by(value: Seq<char>) -> Result<Environment, Seq<char>> {
        if lowercase(value) == "local"@ {
            Ok(Environment::Local)
        } else if lowercase(value) == "production"@ {
            Ok(Environment::Production)
        } else {
            Err(Self::rejection(lowercase(value)))
        }
    }

}

impl TryFrom<String> for Environment {
    type Error = String;

    /// Reads the name of an environment, in letters of any case. A text that
    /// names none is turned down with a message that holds its lowercase
    /// form.
    fn try_from(value: String) -> (r: Result<Environment, String>)
        ensures
            match Environment::named_by(value@) {
                Ok(environment) => r == Ok::<Environment, String>(environment),
                Err(message) => r matches Err(m) && m@ == message,
            },
    {
        let lowered = value.as_str().to_lowercase();
        if text_equals(lowered.as_str(), "local") {
            Ok(Environment::Local)
        } else if text_equals(lowered.as_str(), "production") {
            Ok(Environment::Production)
        } else {
            Err(lowered.concat(" is not supported environment. Try to use `local` or `production`"))
        }
    }
}

impl vstd::std_specs::convert::TryFromSpecImpl<String> for Environment {
    open spec fn obeys_try_from_spec() -> bool {
        false
    }

    open spec fn try_from_spec(value: String) -> Result<Self, String> {
        Err(value)
    }
}

/// The settings of the e-mail transport.
pub struct EmailClientSettings {
    pub base_url: String,
    pub sender_email: String,
    pub auth_token: Secret,
    pub timeout_ms: u64,
}

impl EmailClientSettings {
    /// The address e-mails are sent from, if the setting is an e-mail
    /// address.
    pub fn sender(&self) -> (r: Result<SubscriberEmail, String>)
        ensures
            r is Ok <==> is_valid_email(self.sender_email@),
            r matches Ok(email) ==> email@ == self.sender_email@,
            r matches Err(message) ==> message@ == SubscriberEmail::rejection(self.sender_email@),
    {
        SubscriberEmail::parse(self.sender_email.clone())
    }

    /// How long the transport may take for one request, in milliseconds.
    pub fn timeout(&self) -> (ms: u64)
        ensures
            ms == self.timeout_ms,
    {
        self.timeout_ms
    }
}

/// The settings of the HTTP server.
pub struct ApplicationSettings {
    pub port: u16,
    pub host: String,
    pub base_url: String,
    pub hmac_secret: Secret,
}

/// The decimal digits of `n`.
pub open spec fn decimal(n: nat) -> Seq<char>
    decreases n,
{
    if n < 10 {
        seq![digit(n)]
    } else {
        decimal(n / 10).push(digit(n % 10))
    }
}

/// The character of the digit `d`.
pub open spec fn digit(d: nat) -> char {
    (('0' as u8) + d as u8) as char
}

impl ApplicationSettings {
    /// The address to listen on: host, colon, port.
    pub open spec fn address_text(self) -> Seq<char> {
        self.host@ + ":"@ + decimal(self.port as nat)
    }

    /// The address to listen on, the port in decimal digits.
    pub fn address(&self) -> (address: String)
        ensures
            address@ == self.address_text(),
    {
        let mut digits: Vec<char> = Vec::new();
        let mut rest: u16 = self.port;
        loop
            invariant_except_break
                decimal(self.port as nat) == decimal(rest as nat) + digits@.reverse(),
                rest >= 0,
            ensures
                decimal(self.port as nat) == digits@.reverse(),
            decreases rest,
        {
            let d: u8 = (rest % 10) as u8;
            let c = (48u8 + d) as char;
            assert(c == digit((rest % 10) as nat));
            let ghost before = digits@;
            digits.push(c);
            if rest < 10 {
                assert(digits@.reverse() =~= seq![c] + before.reverse());
                assert(decimal(rest as nat) + before.reverse() =~= digits@.reverse());
                break;
            }
            assert(decimal(rest as nat) + before.reverse() =~= decimal((rest / 10) as nat)
                + digits@.reverse()) by {
                assert(digits@.reverse() =~= seq![c] + before.reverse());
                assert(decimal(rest as nat) == decimal((rest / 10) as nat).push(c));
            }
            rest = rest / 10;
        }
        let mut address = self.host.clone();
        address.push(':');
        assert(address@ =~= self.host@ + ":"@) by {
            reveal_strlit(":");
            assert(":"@.len() == 1);
            assert(":"@[0] == ':');
        }
        let mut i: usize = digits.len();
        while i > 0
            invariant
                i <= digits@.len(),
                address@ == self.host@ + ":"@ + digits@.reverse().take(digits@.len() - i),
            decreases i,
        {
            i = i - 1;
            address.push(digits[i]);
            assert(address@ =~= self.host@ + ":"@ + digits@.reverse().take(digits@.len() - i));
        }
        assert(digits@.reverse().take(digits@.len() as int) =~= digits@.reverse());
        address
    }
}

/// How the connection to the database is to be secured.
#[derive(Clone, Copy, Debug, PartialEq, Eq, Structural)]
pub enum SslMode {
    /// Encrypt if the server offers it.
    Prefer,
    /// Refuse to connect without encryption.
    Require,
}

/// The settings of the database.
pub struct DatabaseSettings {
    pub username: String,
    pub password: Secret,
    pub port: u16,
    pub host: String,
    pub database_name: String,
    pub require_ssl: bool,
}

impl DatabaseSettings {
    /// Encryption is required where the settings say so and preferred
    /// otherwise.
    pub fn ssl_mode(&self) -> (mode: SslMode)
        ensures
            mode == (if self.require_ssl {
                SslMode::Require
            } else {
                SslMode::Prefer
            }),
    {
        if self.require_ssl {
            SslMode::Require
        } else {
            SslMode::Prefer
        }
    }
}

/// All settings.
pub struct Settings {
    pub database: DatabaseSettings,
    pub app: ApplicationSettings,
    pub email_client: EmailClientSettings,
    pub redis_uri: Secret,
}

} // verus!
