//! The settings of the supervisor, read from a JSON document before anything
//! else starts. A setting that is missing is a reason not to start at all.

use vstd::prelude::*;

verus! {

/// A JSON value. Nothing of its inside is visible here; what it holds is
/// named by `text_entries`, `flag_entries` and `number_entries`.
#[verifier::external_type_specification]
#[verifier::external_body]
pub struct ExValue(serde_json::Value);

/// The entries of a JSON object whose values are strings, by key. A value
/// that is no object has none.
pub uninterp spec fn text_entries(config: serde_json::Value) -> Map<Seq<char>, Seq<char>>;

/// The entries of a JSON object whose values are booleans, by key.
pub uninterp spec fn flag_entries(config: serde_json::Value) -> Map<Seq<char>, bool>;

/// The entries of a JSON object whose values are numbers that fit into 64
/// bits without a sign, by key.
pub uninterp spec fn number_entries(config: serde_json::Value) -> Map<Seq<char>, u64>;

/// Looks up `key` with `serde_json::Value::get` and reads what is found
/// with `Value::as_str`. Believed, not proved: the result is the string
/// under `key`, and there is none exactly if `config` is no object, has no
/// such key, or holds something other than a string under it.
#[verifier::external_body]
fn text_entry(config: &serde_json::Value, key: &str) -> (r: Option<String>)
    ensures
        r is Some <==> text_entries(*config).contains_key(key@),
        r is Some ==> r->0@ == text_entries(*config)[key@],
{
    config.get(key).and_then(serde_json::Value::as_str).map(String::from)
}

/// Looks up `key` with `serde_json::Value::get` and reads what is found
/// with `Value::as_bool`. Believed, not proved: the result is the boolean
/// under `key`, and there is none exactly if `config` is no object, has no
/// such key, or holds something other than a boolean under it.
#[verifier::external_body]
fn flag_entry(config: &serde_json::Value, key: &str) -> (r: Option<bool>)
    ensures
        r is Some <==> flag_entries(*config).contains_key(key@),
        r is Some ==> r->0 == flag_entries(*config)[key@],
{
    config.get(key).and_then(serde_json::Value::as_bool)
}

/// Looks up `key` with `serde_json::Value::get` and reads what is found
/// with `Value::as_u64`. Believed, not proved: the result is the number
/// under `key`, and there is none exactly if `config` is no object, has no
/// such key, or holds something other than an unsigned 64-bit number under
/// it.
#[verifier::external_body]
fn number_entry(config: &serde_json::Value, key: &str) -> (r: Option<u64>)
    ensures
        r is Some <==> number_entries(*config).contains_key(key@),
        r is Some ==> r->0 == number_entries(*config)[key@],
{
    config.get(key).and_then(serde_json::Value::as_u64)
}

/// A setting that must be there.
#[derive(Clone, Copy, Debug, PartialEq, Eq, Structural)]
pub enum Key {
    Username,
    Password,
    ChannelId,
    JavaPath,
    ServerPath,
    ServerFolder,
    MinRam,
    MaxRam,
    McrconPath,
    RconPassword,
}

/// The name of a setting in the document.
pub open spec fn key_name(key: Key) -> Seq<char> {
    match key {
        Key::Username => "username"@,
        Key::Password => "password"@,
        Key::ChannelId => "channel-id"@,
        Key::JavaPath => "java-path"@,
        Key::ServerPath => "server-path"@,
        Key::ServerFolder => "server-folder"@,
        Key::MinRam => "min-ram"@,
        Key::MaxRam => "max-ram"@,
        Key::McrconPath => "mcrcon-path"@,
        Key::RconPassword => "rcon_password"@,
    }
}

/// The name under which the console switch stands in the document.
pub open spec fn console_key() -> Seq<char> {
    "console_enabled"@
}

/// The name of a setting in the document.
pub fn key_text(key: Key) -> (r: &'static str)
    ensures
        r@ == key_name(key),
{
    match key {
        Key::Username => "username",
        Key::Password => "password",
        Key::ChannelId => "channel-id",
        Key::JavaPath => "java-path",
        Key::ServerPath => "server-path",
        Key::ServerFolder => "server-folder",
        Key::MinRam => "min-ram",
        Key::MaxRam => "max-ram",
        Key::McrconPath => "mcrcon-path",
        Key::RconPassword => "rcon_password",
    }
}

/// What the supervisor needs to know before it starts.
#[derive(Clone, Debug, PartialEq, Eq)]
pub struct Settings {
    pub username: String,
    pub password: String,
    pub channel_id: u64,
    pub java_path: String,
    pub server_path: String,
    pub server_folder: String,
    pub min_ram: String,
    pub max_ram: String,
    pub mcrcon_path: String,
    pub rcon_password: String,
    pub console_enabled: bool,
}

/// The settings could not be read: this one is missing, or is not of the
/// kind it has to be.
#[derive(Clone, Copy, Debug, PartialEq, Eq)]
pub struct ConfigError {
    pub missing: Key,
}

/// Whether a document holds the setting `key`: the channel as a number,
/// every other setting as a string.
pub open spec fn has_key(config: serde_json::Value, key: Key) -> bool {
    if key == Key::ChannelId {
        number_entries(config).contains_key(key_name(key))
    } else {
        text_entries(config).contains_key(key_name(key))
    }
}

/// The first setting that a document lacks, in the order in which the
/// settings are needed; none if it holds them all.
pub open spec fn first_missing(config: serde_json::Value) -> Option<Key> {
    if !has_key(config, Key::Username) {
        Some(Key::Username)
    } else if !has_key(config, Key::Password) {
        Some(Key::Password)
    } else if !has_key(config, Key::ChannelId) {
        Some(Key::ChannelId)
    } else if !has_key(config, Key::JavaPath) {
        Some(Key::JavaPath)
    } else if !has_key(config, Key::ServerPath) {
        Some(Key::ServerPath)
    } else if !has_key(config, Key::ServerFolder) {
        Some(Key::ServerFolder)
    } else if !has_key(config, Key::MinRam) {
        Some(Key::MinRam)
    } else if !has_key(config, Key::MaxRam) {
        Some(Key::MaxRam)
    } else if !has_key(config, Key::McrconPath) {
        Some(Key::McrconPath)
    } else if !has_key(config, Key::RconPassword) {
        Some(Key::RconPassword)
    } else {
        None
    }
}

/// The text that a document holds under `key`.
pub open spec fn text_of_key(config: serde_json::Value, key: Key) -> Seq<char> {
    text_entries(config)[key_name(key)]
}

/// Whether `settings` is what the document `config` says.
pub open spec fn matches_document(settings: Settings, config: serde_json::Value) -> bool {
    &&& settings.username@ == text_of_key(config, Key::Username)
    &&& settings.password@ == text_of_key(config, Key::Password)
    &&& settings.channel_id == number_entries(config)[key_name(Key::ChannelId)]
    &&& settings.java_path@ == text_of_key(config, Key::JavaPath)
    &&& settings.server_path@ == text_of_key(config, Key::ServerPath)
    &&& settings.server_folder@ == text_of_key(config, Key::ServerFolder)
    &&& settings.min_ram@ == text_of_key(config, Key::MinRam)
    &&& settings.max_ram@ == text_of_key(config, Key::MaxRam)
    &&& settings.mcrcon_path@ == text_of_key(config, Key::McrconPath)
    &&& settings.rcon_password@ == text_of_key(config, Key::RconPassword)
    &&& settings.console_enabled == (flag_entries(config).contains_key(console_key())
        && flag_entries(config)[console_key()])
}

/// Reads the text under `key`, or says that it is missing.
fn required(config: &serde_json::Value, key: Key) -> (r: Result<String, ConfigError>)
    requires
        key != Key::ChannelId,
    ensures
        r is Ok <==> has_key(*config, key),
        r matches Ok(text) ==> text@ == text_of_key(*config, key),
        r matches Err(e) ==> e.missing == key,
{
    match text_entry(config, key_text(key)) {
        Some(text) => Ok(text),
        None => Err(ConfigError { missing: key }),
    }
}

/// Reads the settings from a document. They are read in the order in which
/// they are needed, and the first that is missing is the error. The console
/// switch may be missing: it is then off, as it is when the document holds
/// something other than a boolean for it.
pub fn read_settings(config: &serde_json::Value) -> (r: Result<Settings, ConfigError>)
    ensures
        match first_missing(*config) {
            Some(key) => r is Err && r->Err_0.missing == key,
            None => r is Ok && matches_document(r->Ok_0, *config),
        },
{
    let username = match required(config, Key::Username) {
        Ok(text) => text,
        Err(e) => {
            return Err(e);
        },
    };
    let password = match required(config, Key::Password) {
        Ok(text) => text,
        Err(e) => {
            return Err(e);
        },
    };
    let channel_id = match number_entry(config, key_text(Key::ChannelId)) {
        Some(n) => n,
        None => {
            return Err(ConfigError { missing: Key::ChannelId });
        },
    };
    let java_path = match required(config, Key::JavaPath) {
        Ok(text) => text,
        Err(e) => {
            return Err(e);
        },
    };
    let server_path = match required(config, Key::ServerPath) {
        Ok(text) => text,
        Err(e) => {
            return Err(e);
        },
    };
    let server_folder = match required(config, Key::ServerFolder) {
        Ok(text) => text,
        Err(e) => {
            return Err(e);
        },
    };
    let min_ram = match required(config, Key::MinRam) {
        Ok(text) => text,
        Err(e) => {
            return Err(e);
        },
    };
    let max_ram = match required(config, Key::MaxRam) {
        Ok(text) => text,
        Err(e) => {
            return Err(e);
        },
    };
    let mcrcon_path = match required(config, Key::McrconPath) {
        Ok(text) => text,
        Err(e) => {
            return Err(e);
        },
    };
    let rcon_password = match required(config, Key::RconPassword) {
        Ok(text) => text,
        Err(e) => {
            return Err(e);
        },
    };
    let console_enabled = match flag_entry(config, "console_enabled") {
        Some(flag) => flag,
        None => false,
    };
    Ok(
        Settings {
            username,
            password,
            channel_id,
            java_path,
            server_path,
            server_folder,
            min_ram,
            max_ram,
            mcrcon_path,
            rcon_password,
            console_enabled,
        },
    )
}

/// What is said of a missing setting.
pub open spec fn missing_text(key: Key) -> Seq<char> {
    "No "@ + key_name(key) + " in config file"@
}

impl ConfigError {
    /// The error in words.
    pub fn message(&self) -> (r: String)
        ensures
            r@ == missing_text(self.missing),
    {
        let mut text = String::new();
        text.append("No ");
        text.append(key_text(self.missing));
        text.append(" in config file");
        assert(text@ =~= missing_text(self.missing));
        text
    }
}

} // verus!
