//! What can be wrong with a configuration.

use vstd::prelude::*;

verus! {

/// What can be wrong with a configuration.
#[derive(Debug)]
#[non_exhaustive]
pub enum ConfigError {
    /// A file cannot be read.
    Io {
        /// The path of the file.
        path: String,
        /// What the system says.
        source: String,
    },
    /// A file is not valid TOML, or not of the expected shape.
    Toml {
        /// The path of the file.
        path: String,
        /// What the parser says.
        source: String,
    },
    /// The values contradict a rule, such as a list that is empty or a name that is
    /// used twice.
    Invalid(String),
    /// A field is not valid base64.
    Base64 {
        /// The name of the field.
        field: &'static str,
        /// What the decoder says.
        source: String,
    },
}

/// The model of a [`ConfigError`].
#[verifier::ext_equal]
pub enum ConfigErrorView {
    /// See [`ConfigError::Io`].
    Io(Seq<char>, Seq<char>),
    /// See [`ConfigError::Toml`].
    Toml(Seq<char>, Seq<char>),
    /// See [`ConfigError::Invalid`].
    Invalid(Seq<char>),
    /// See [`ConfigError::Base64`].
    Base64(Seq<char>, Seq<char>),
}

impl View for ConfigError {
    type V = ConfigErrorView;

    open spec fn view(&self) -> ConfigErrorView {
        match *self {
            ConfigError::Io { path, source } => ConfigErrorView::Io(path@, source@),
            ConfigError::Toml { path, source } => ConfigErrorView::Toml(path@, source@),
            ConfigError::Invalid(msg) => ConfigErrorView::Invalid(msg@),
            ConfigError::Base64 { field, source } => ConfigErrorView::Base64(field@, source@),
        }
    }
}

impl ConfigErrorView {
    /// The text that describes the error.
    pub open spec fn text(self) -> Seq<char> {
        match self {
            ConfigErrorView::Io(path, source) => "failed to read config file "@ + path + ": "@
                + source,
            ConfigErrorView::Toml(path, source) => "failed to parse TOML in "@ + path + ": "@
                + source,
            ConfigErrorView::Invalid(msg) => "invalid configuration: "@ + msg,
            ConfigErrorView::Base64(field, source) => "invalid base64 in field "@ + field + ": "@
                + source,
        }
    }
}

impl ConfigError {
    /// The error with the given message about the values.
    pub fn invalid(msg: String) -> (r: ConfigError)
        ensures
            r@ == ConfigErrorView::Invalid(msg@),
    {
        ConfigError::Invalid(msg)
    }

    /// The text that describes the error.
    pub fn to_string(&self) -> (r: String)
        ensures
            r@ == self@.text(),
    {
        let mut s = String::new();
        match self {
            ConfigError::Io { path, source } => {
                s.append("failed to read config file ");
                s.append(path.as_str());
                s.append(": ");
                s.append(source.as_str());
            },
            ConfigError::Toml { path, source } => {
                s.append("failed to parse TOML in ");
                s.append(path.as_str());
                s.append(": ");
                s.append(source.as_str());
            },
            ConfigError::Invalid(msg) => {
                s.append("invalid configuration: ");
                s.append(msg.as_str());
            },
            ConfigError::Base64 { field, source } => {
                s.append("invalid base64 in field ");
                s.append(field);
                s.append(": ");
                s.append(source.as_str());
            },
        }
        assert(s@ =~= self@.text());
        s
    }
}

/// What an error says: what happened, and behind it the cause that it carries.
pub proof fn law_texts_tell_the_cause(e: ConfigError, r: String)
    requires
        call_ensures(ConfigError::to_string, (&e,), r),
    ensures
        match e {
            ConfigError::Io { path, source } => {
                r@ == "failed to read config file "@ + path@ + ": "@ + source@
            },
            ConfigError::Toml { path, source } => {
                r@ == "failed to parse TOML in "@ + path@ + ": "@ + source@
            },
            ConfigError::Invalid(msg) => r@ == "invalid configuration: "@ + msg@,
            ConfigError::Base64 { field, source } => {
                r@ == "invalid base64 in field "@ + field@ + ": "@ + source@
            },
        },
{
}

} // verus!
