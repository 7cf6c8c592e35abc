//! How reading, parsing and writing the settings file fail.
use vstd::prelude::*;
use crate::settings::{algorithm_key, port_key, servers_key, Fault, Field};

verus! {

/// A failure of the settings store.
#[derive(Clone, Debug)]
pub enum ConfigError {
    /// A file could not be read, written or renamed. `to` is the destination of a
    /// failed rename; `cause` is the system's own account of the failure.
    IoError { path: String, to: Option<String>, cause: String },
    /// The file was read but does not hold settings.
    MalformedConfig { fault: Fault, detail: String },
    /// The settings could not be turned into text.
    SerializationError { detail: String },
}

/// A failure as mathematical values; the free-form details are left out.
pub enum ErrorModel {
    Io { path: Seq<char>, to: Option<Seq<char>>, cause: Seq<char> },
    Malformed(Fault),
    Serialization,
}

pub open spec fn option_view(o: Option<String>) -> Option<Seq<char>> {
    match o {
        Some(s) => Some(s@),
        None => None,
    }
}

impl View for ConfigError {
    type V = ErrorModel;

    open spec fn view(&self) -> ErrorModel {
        match self {
            ConfigError::IoError { path, to, cause } => ErrorModel::Io {
                path: path@,
                to: option_view(*to),
                cause: cause@,
            },
            ConfigError::MalformedConfig { fault, .. } => ErrorModel::Malformed(*fault),
            ConfigError::SerializationError { .. } => ErrorModel::Serialization,
        }
    }
}

/// The name of a field's member in the settings document.
pub open spec fn field_key(field: Field) -> Seq<char> {
    match field {
        Field::Port => port_key(),
        Field::Servers => servers_key(),
        Field::PreferredAlgorithm => algorithm_key(),
    }
}

/// What a field's member must hold.
pub open spec fn field_expectation(field: Field) -> Seq<char> {
    match field {
        Field::Port => "an integer from 0 to 65535"@,
        Field::Servers => "an array of strings"@,
        Field::PreferredAlgorithm => "a string"@,
    }
}

/// The sentence that says what is wrong with a document.
pub open spec fn fault_text(fault: Fault) -> Seq<char> {
    match fault {
        Fault::Syntax => "the settings file is not valid JSON"@,
        Fault::NotAnObject => "the settings document is not a JSON object"@,
        Fault::Missing(field) => "missing field `"@ + field_key(field) + "`"@,
        Fault::Invalid(field) => "invalid value for field `"@ + field_key(field) + "`: expected "@
            + field_expectation(field),
    }
}

fn field_name(field: Field) -> (r: &'static str)
    ensures
        r@ == field_key(field),
{
    match field {
        Field::Port => "port",
        Field::Servers => "servers",
        Field::PreferredAlgorithm => "preferred_algorithm",
    }
}

/// A sentence for an operator that says what is wrong with a document, naming
/// the member at fault.
pub fn fault_message(fault: Fault) -> (r: String)
    ensures
        r@ == fault_text(fault),
{
    match fault {
        Fault::Syntax => String::from_str("the settings file is not valid JSON"),
        Fault::NotAnObject => String::from_str("the settings document is not a JSON object"),
        Fault::Missing(field) => String::from_str("missing field `").concat(field_name(field)).concat(
            "`",
        ),
        Fault::Invalid(field) => {
            let expected = match field {
                Field::Port => "an integer from 0 to 65535",
                Field::Servers => "an array of strings",
                Field::PreferredAlgorithm => "a string",
            };
            String::from_str("invalid value for field `").concat(field_name(field)).concat(
                "`: expected ",
            ).concat(expected)
        },
    }
}

} // verus!
