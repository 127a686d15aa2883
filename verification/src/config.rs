//! Loading the service configuration: credentials and model, from the text of
//! a TOML file.

use crate::error::ConfigError;
use vstd::prelude::*;

verus! {

/// One top-level key of a configuration document, with its value where that
/// value is a string.
#[derive(Debug, PartialEq, Eq)]
pub struct Setting {
    pub key: String,
    pub text: Option<String>,
}

/// The mathematical value of a [`Setting`].
pub struct SettingView {
    pub key: Seq<char>,
    pub text: Option<Seq<char>>,
}

impl View for Setting {
    type V = SettingView;

    open spec fn view(&self) -> SettingView {
        SettingView {
            key: self.key@,
            text: match self.text {
                Some(text) => Some(text@),
                None => None,
            },
        }
    }
}

/// The values of a list of settings, one for one.
pub open spec fn setting_views(settings: Seq<Setting>) -> Seq<SettingView> {
    Seq::new(settings.len(), |i: int| settings[i]@)
}

/// The string stored under `key`: that of the first setting with this key,
/// if it has one.
pub open spec fn text_of(settings: Seq<SettingView>, key: Seq<char>) -> Option<Seq<char>>
    decreases settings.len(),
{
    if settings.len() == 0 {
        None
    } else if settings[0].key == key {
        settings[0].text
    } else {
        text_of(settings.drop_first(), key)
    }
}

/// Credentials and target model of the service. Neither is ever empty.
#[derive(Debug, PartialEq, Eq)]
pub struct ServiceConfig {
    api_key: String,
    model: String,
}

/// The mathematical value of a [`ServiceConfig`].
pub struct ServiceConfigView {
    pub api_key: Seq<char>,
    pub model: Seq<char>,
}

impl ServiceConfigView {
    /// Both fields are present.
    pub open spec fn well_formed(self) -> bool {
        self.api_key.len() > 0 && self.model.len() > 0
    }
}

impl View for ServiceConfig {
    type V = ServiceConfigView;

    closed spec fn view(&self) -> ServiceConfigView {
        ServiceConfigView { api_key: self.api_key@, model: self.model@ }
    }
}

/// The configuration that a list of settings describes: its `api_key` and
/// `model`, where both are non-empty strings.
pub open spec fn config_of(settings: Seq<SettingView>) -> Result<ServiceConfigView, ConfigError> {
    match (text_of(settings, "api_key"@), text_of(settings, "model"@)) {
        (Some(api_key), Some(model)) => if api_key.len() > 0 && model.len() > 0 {
            Ok(ServiceConfigView { api_key, model })
        } else {
            Err(ConfigError::Malformed)
        },
        _ => Err(ConfigError::Malformed),
    }
}

/// The value of a loaded configuration, or the error.
pub open spec fn loaded_view(loaded: Result<ServiceConfig, ConfigError>) -> Result<
    ServiceConfigView,
    ConfigError,
> {
    match loaded {
        Ok(config) => Ok(config@),
        Err(error) => Err(error),
    }
}

impl ServiceConfig {
    #[verifier::type_invariant]
    spec fn inv(self) -> bool {
        self@.well_formed()
    }

    /// A configuration of the two fields, which must both be non-empty.
    pub fn new(api_key: String, model: String) -> (made: Result<ServiceConfig, ConfigError>)
        ensures
            loaded_view(made) == (if api_key@.len() > 0 && model@.len() > 0 {
                Ok(ServiceConfigView { api_key: api_key@, model: model@ })
            } else {
                Err(ConfigError::Malformed)
            }),
    {
        if api_key.as_str().is_empty() || model.as_str().is_empty() {
            Err(ConfigError::Malformed)
        } else {
            Ok(ServiceConfig { api_key, model })
        }
    }

    /// The secret that authenticates the client.
    pub fn api_key(&self) -> (key: &String)
        ensures
            key@ == self@.api_key,
            key@.len() > 0,
    {
        proof {
            use_type_invariant(self);
        }
        &self.api_key
    }

    /// The identifier of the model to ask.
    pub fn model(&self) -> (model: &String)
        ensures
            model@ == self@.model,
            model@.len() > 0,
    {
        proof {
            use_type_invariant(self);
        }
        &self.model
    }
}

/// The string under `key` among the settings.
pub fn find_text<'a>(settings: &'a Vec<Setting>, key: &str) -> (found: Option<&'a String>)
    ensures
        match found {
            Some(text) => text_of(setting_views(settings@), key@) == Some(text@),
            None => text_of(setting_views(settings@), key@) is None,
        },
{
    let wanted = key.to_owned();
    let ghost all = setting_views(settings@);
    assert(all.skip(0) == all);
    let mut i: usize = 0;
    while i < settings.len()
        invariant
            i <= settings.len(),
            wanted@ == key@,
            all == setting_views(settings@),
            text_of(all, key@) == text_of(all.skip(i as int), key@),
        decreases settings.len() - i,
    {
        let ghost rest = all.skip(i as int);
        assert(rest[0] == all[i as int]);
        assert(rest.drop_first() == all.skip(i + 1));
        if settings[i].key == wanted {
            return match &settings[i].text {
                Some(text) => Some(text),
                None => None,
            };
        }
        i += 1;
    }
    None
}

/// Builds the configuration from the settings of a document.
pub fn config_from_settings(settings: &Vec<Setting>) -> (loaded: Result<ServiceConfig, ConfigError>)
    ensures
        loaded_view(loaded) == config_of(setting_views(settings@)),
{
    match (find_text(settings, "api_key"), find_text(settings, "model")) {
        (Some(api_key), Some(model)) => ServiceConfig::new(api_key.clone(), model.clone()),
        _ => Err(ConfigError::Malformed),
    }
}

/// `toml::de::Error`, the reason `toml` gives for refusing a document.
#[verifier::external_type_specification]
#[verifier::external_body]
pub struct ExTomlError(toml::de::Error);

/// The top-level keys of the table that `toml::from_str` reads from `text`,
/// in the table's order, each with its value where that is a string; `None`
/// where `toml` reports an error.
pub uninterp spec fn toml_document(text: Seq<char>) -> Option<Seq<SettingView>>;

/// Calls `toml::from_str` for a `toml::Table` and moves the table's entries
/// into settings: the key, and the string of a `toml::Value::String`. Nothing
/// is claimed beyond the name: the call succeeds exactly where
/// [`toml_document`] has a value, and that value is what the settings hold.
#[verifier::external_body]
fn read_settings(text: &str) -> (read: Result<Vec<Setting>, toml::de::Error>)
    ensures
        match read {
            Ok(settings) => toml_document(text@) == Some(setting_views(settings@)),
            Err(_) => toml_document(text@) is None,
        },
{
    let table = toml::from_str::<toml::Table>(text)?;
    let settings = table.into_iter().map(|(key, value)| Setting {
        key,
        text: match value {
            toml::Value::String(text) => Some(text),
            _ => None,
        },
    });
    Ok(settings.collect())
}

/// The configuration that the text of a file describes.
pub open spec fn parsed_config(text: Seq<char>) -> Result<ServiceConfigView, ConfigError> {
    match toml_document(text) {
        Some(settings) => config_of(settings),
        None => Err(ConfigError::Malformed),
    }
}

/// The configuration that a file yields; `None` stands for a file that could
/// not be read.
pub open spec fn loaded_config(file: Option<Seq<char>>) -> Result<
    ServiceConfigView,
    ConfigError,
> {
    match file {
        Some(text) => parsed_config(text),
        None => Err(ConfigError::NotFound),
    }
}

/// Reads a configuration from the text of a file.
pub fn parse_config(text: &str) -> (loaded: Result<ServiceConfig, ConfigError>)
    ensures
        loaded_view(loaded) == parsed_config(text@),
{
    match read_settings(text) {
        Ok(settings) => config_from_settings(&settings),
        Err(_) => Err(ConfigError::Malformed),
    }
}

/// Loads the configuration from what reading the file gave: its text, or
/// `None` where it could not be opened or read.
pub fn load_config(file: Option<&str>) -> (loaded: Result<ServiceConfig, ConfigError>)
    ensures
        loaded_view(loaded) == loaded_config(
            match file {
                Some(text) => Some(text@),
                None => None,
            },
        ),
{
    match file {
        Some(text) => parse_config(text),
        None => Err(ConfigError::NotFound),
    }
}

} // verus!
