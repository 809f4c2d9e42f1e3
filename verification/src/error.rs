//! The error that callers of the radio driver receive, and the rule that
//! turns a driver status into it.

use vstd::prelude::*;
use crate::status::radio_status;
use crate::text::{lemma_occurs_after_prefix, lemma_occurs_in_at, occurs_in};

verus! {

/// Failure of a radio operation.
///
/// Every failure of the driver is reported under the one kind
/// `HardwareError`; what went wrong is told apart by the message alone.
#[derive(Debug, Clone, PartialEq, Eq)]
pub enum RadioError {
    /// The radio hardware reported a failure; `message` says which.
    HardwareError { message: String },
}

impl RadioError {
    /// The characters of the error's message.
    pub open spec fn message_text(self) -> Seq<char> {
        match self {
            RadioError::HardwareError { message } => message@,
        }
    }
}

/// The words that open the message of every error made by
/// [`radio_status_to_err`].
pub open spec fn hardware_error_prefix() -> Seq<char> {
    "TRXVU radio error "@
}

/// The message that [`radio_status_to_err`] gives for `status`: the opening
/// words, then the status's name.
pub open spec fn hardware_error_text(status: radio_status) -> Seq<char> {
    hardware_error_prefix() + status.name_text()
}

impl From<radio_status> for RadioError {
    /// Wraps any status, `radio_ok` included, as a hardware error whose
    /// message is the status's name and nothing else.
    fn from(s: radio_status) -> (e: RadioError)
        ensures
            e is HardwareError,
            e.message_text() == s.name_text(),
            occurs_in(s.name_text(), e.message_text()),
    {
        proof {
            let name = s.name_text();
            assert(name.subrange(0, name.len() as int) =~= name);
            lemma_occurs_in_at(name, name, 0);
        }
        RadioError::HardwareError { message: s.name().to_owned() }
    }
}

impl vstd::std_specs::convert::FromSpecImpl<radio_status> for RadioError {
    /// Two strings of the same characters are not known to be one value, so
    /// `from` is described by its own `ensures`, not by equality with
    /// `from_spec`.
    open spec fn obeys_from_spec() -> bool {
        false
    }

    /// Some error whose message is the name of `s`.
    open spec fn from_spec(s: radio_status) -> RadioError {
        choose|e: RadioError| e.message_text() == s.name_text()
    }
}

/// Turns the status of a driver call into the result handed to the caller.
///
/// `radio_ok` is success and carries nothing. Every other status is a
/// `HardwareError` whose message is `"TRXVU radio error "` followed by the
/// status's name, so the name can always be read back from the message.
pub fn radio_status_to_err(status: radio_status) -> (result: Result<(), RadioError>)
    ensures
        status == radio_status::radio_ok ==> result == Ok::<(), RadioError>(()),
        status != radio_status::radio_ok ==> result is Err,
        result matches Err(e) ==> {
            &&& e is HardwareError
            &&& e.message_text() == hardware_error_text(status)
            &&& occurs_in(status.name_text(), e.message_text())
        },
{
    match status {
        radio_status::radio_ok => Ok(()),
        _ => {
            let mut message = "TRXVU radio error ".to_owned();
            message.append(status.name());
            proof {
                lemma_occurs_after_prefix(hardware_error_prefix(), status.name_text());
            }
            Err(RadioError::HardwareError { message })
        },
    }
}

/// The message of a hardware error holds the name of the status it was
/// made for.
pub proof fn lemma_error_text_holds_name(status: radio_status)
    ensures
        occurs_in(status.name_text(), hardware_error_text(status)),
{
    lemma_occurs_after_prefix(hardware_error_prefix(), status.name_text());
}

/// Two statuses have the same message only if they are the same status, so
/// the message alone tells an empty receive queue from a driver failure and
/// from a rejected configuration.
pub proof fn lemma_error_text_identifies(a: radio_status, b: radio_status)
    ensures
        hardware_error_text(a) == hardware_error_text(b) <==> a == b,
{
    radio_status::lemma_name_identifies(a, b);
    assert(hardware_error_text(a).len() == hardware_error_prefix().len() + a.name_text().len());
    assert(hardware_error_text(b).len() == hardware_error_prefix().len() + b.name_text().len());
}

} // verus!
