use crate::text::{debug_str, debug_str_text, decimal, decimal_string};
use async_tftp::Error as TftpError;
use vstd::prelude::*;
use vstd::string::*;

verus! {

/// Main error type of the platform.
///
/// Every variant carries a human readable message where it makes sense.
#[derive(Debug, Clone)]
pub enum Error {
    PublishError { topic: String, pyl_size: usize, cause: String },
    MessageAttributeSubscribeError(String),
    InternalPointerUpgrade,
    InvalidArgument(String),
    InternalLogic(String),
    Spawn(String),
    BadSettings(String),
    SerializeFailure(String),
    DeserializeError(String),
    PluginError(String),
    ChannelError(String),
    Generic(String),
    EnumOutOfChoices(String),
    SiOutOfRange(String),
    DriverError(String),
    CodecError(String),
    Wtf,
}

/// The message of each kind of error, as displayed.
pub open spec fn error_message(e: Error) -> Seq<char> {
    match e {
        Error::PublishError { topic, pyl_size, cause } => "Cannot publish message ("@ + decimal(
            pyl_size as nat,
        ) + " bytes) on topic "@ + debug_str_text(topic@) + " because "@ + debug_str_text(cause@),
        Error::MessageAttributeSubscribeError(_) => "Cannot subscribe to the message attribute topic"@,
        Error::InternalPointerUpgrade => "Internal weak pointer cannot be upgraded"@,
        Error::InvalidArgument(_) => "Invalid argument given to the function"@,
        Error::InternalLogic(_) => "Internal logic lead to this error"@,
        Error::Spawn(_) => "Error when trying to spawn a task"@,
        Error::BadSettings(_) => "One of the provided settings is wrong"@,
        Error::SerializeFailure(_) => "Error during serialization"@,
        Error::DeserializeError(_) => "Error during deserialization"@,
        Error::PluginError(_) => "Error related to plugin management"@,
        Error::ChannelError(_) => "Error managing a cross task channel"@,
        Error::Generic(_) => "Error"@,
        Error::EnumOutOfChoices(_) => "The value is not among the enum choices"@,
        Error::SiOutOfRange(_) => "The value is out of range"@,
        Error::DriverError(_) => "Driver operation failure"@,
        Error::CodecError(_) => "Error codec runtime"@,
        Error::Wtf => "We just don't know what happened"@,
    }
}

impl Error {
    /// The message of the error, as displayed.
    pub fn message(&self) -> (r: String)
        ensures
            r@ == error_message(*self),
    {
        match self {
            Error::PublishError { topic, pyl_size, cause } => {
                let mut m = "Cannot publish message (".to_owned();
                m.append(decimal_string(*pyl_size as u64).as_str());
                m.append(" bytes) on topic ");
                m.append(debug_str(topic.as_str()).as_str());
                m.append(" because ");
                m.append(debug_str(cause.as_str()).as_str());
                m
            },
            Error::MessageAttributeSubscribeError(_) => "Cannot subscribe to the message attribute topic".to_owned(),
            Error::InternalPointerUpgrade => "Internal weak pointer cannot be upgraded".to_owned(),
            Error::InvalidArgument(_) => "Invalid argument given to the function".to_owned(),
            Error::InternalLogic(_) => "Internal logic lead to this error".to_owned(),
            Error::Spawn(_) => "Error when trying to spawn a task".to_owned(),
            Error::BadSettings(_) => "One of the provided settings is wrong".to_owned(),
            Error::SerializeFailure(_) => "Error during serialization".to_owned(),
            Error::DeserializeError(_) => "Error during deserialization".to_owned(),
            Error::PluginError(_) => "Error related to plugin management".to_owned(),
            Error::ChannelError(_) => "Error managing a cross task channel".to_owned(),
            Error::Generic(_) => "Error".to_owned(),
            Error::EnumOutOfChoices(_) => "The value is not among the enum choices".to_owned(),
            Error::SiOutOfRange(_) => "The value is out of range".to_owned(),
            Error::DriverError(_) => "Driver operation failure".to_owned(),
            Error::CodecError(_) => "Error codec runtime".to_owned(),
            Error::Wtf => "We just don't know what happened".to_owned(),
        }
    }
}

/// `async_tftp::Error`, an error of the TFTP server.
#[verifier::external_type_specification]
#[verifier::external_body]
pub struct ExTftpError(TftpError);

/// Renders a TFTP error with its `Display` implementation. Every variant's
/// message starts with fixed words, so the text is never empty; the rest is
/// not stated: it may hold the message of an I/O error of the system.
#[verifier::external_body]
fn tftp_error_text(e: &TftpError) -> (r: String)
    ensures
        r@.len() > 0,
{
    format!("{}", e)
}

impl vstd::std_specs::convert::FromSpecImpl<TftpError> for Error {
    open spec fn obeys_from_spec() -> bool {
        false
    }

    open spec fn from_spec(err: TftpError) -> Self {
        arbitrary()
    }
}

/// A TFTP error is a driver error whose message is "Erreur TFTP : " followed
/// by the error's own, non-empty, text.
impl From<TftpError> for Error {
    fn from(err: TftpError) -> (r: Self)
        ensures
            r matches Error::DriverError(m) && m@.len() > 14 && m@.take(14) == "Erreur TFTP : "@,
    {
        proof {
            reveal_strlit("Erreur TFTP : ");
        }
        let text = tftp_error_text(&err);
        let mut m = "Erreur TFTP : ".to_owned();
        m.append(text.as_str());
        proof {
            assert(m@.take(14) =~= "Erreur TFTP : "@);
        }
        Error::DriverError(m)
    }
}

} // verus!
