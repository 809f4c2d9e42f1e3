//! Status codes reported by the native radio driver.

use vstd::prelude::*;

verus! {

/// Outcome of a call into the native radio driver.
///
/// The variants are declared in the order of the driver's own enumeration,
/// so that each variant's position is the number the driver uses for it.
/// `radio_ok` is the only value that reports success.
#[allow(non_camel_case_types)]
#[derive(Debug, Clone, Copy, PartialEq, Eq, Structural)]
pub enum radio_status {
    /// The call succeeded.
    radio_ok,
    /// Nothing was waiting in the receive queue. The driver reports this
    /// through the same channel as its failures, though nothing went wrong.
    radio_rx_empty,
    /// The driver failed.
    radio_error,
    /// The driver rejected its configuration.
    radio_error_config,
}

impl radio_status {
    /// The number the driver uses for the variant: its position in the
    /// declaration, counted from zero.
    pub open spec fn ordinal_value(self) -> nat {
        match self {
            radio_status::radio_ok => 0,
            radio_status::radio_rx_empty => 1,
            radio_status::radio_error => 2,
            radio_status::radio_error_config => 3,
        }
    }

    /// The variant's name as a sequence of characters: the text that the
    /// derived `Debug` form prints for it.
    pub open spec fn name_text(self) -> Seq<char> {
        match self {
            radio_status::radio_ok => "radio_ok"@,
            radio_status::radio_rx_empty => "radio_rx_empty"@,
            radio_status::radio_error => "radio_error"@,
            radio_status::radio_error_config => "radio_error_config"@,
        }
    }

    /// Returns the number the driver uses for the variant.
    pub fn ordinal(&self) -> (value: u32)
        ensures
            value == self.ordinal_value(),
    {
        *self as u32
    }

    /// Returns the variant that the driver numbers `value`, if there is one.
    pub fn from_ordinal(value: u32) -> (status: Option<radio_status>)
        ensures
            value < 4 ==> status is Some && status->Some_0.ordinal_value() == value,
            value >= 4 ==> status is None,
    {
        match value {
            0 => Some(radio_status::radio_ok),
            1 => Some(radio_status::radio_rx_empty),
            2 => Some(radio_status::radio_error),
            3 => Some(radio_status::radio_error_config),
            _ => None,
        }
    }

    /// Returns the variant's name.
    pub fn name(&self) -> (text: &'static str)
        ensures
            text@ == self.name_text(),
    {
        match self {
            radio_status::radio_ok => "radio_ok",
            radio_status::radio_rx_empty => "radio_rx_empty",
            radio_status::radio_error => "radio_error",
            radio_status::radio_error_config => "radio_error_config",
        }
    }

    /// The ordinals of the four variants are the numbers 0 to 3, and no two
    /// variants share one.
    pub proof fn lemma_ordinal_identifies(a: radio_status, b: radio_status)
        ensures
            a.ordinal_value() < 4,
            a.ordinal_value() == b.ordinal_value() <==> a == b,
    {
    }

    /// No two variants share a name: the four names have four different
    /// lengths.
    pub proof fn lemma_name_identifies(a: radio_status, b: radio_status)
        ensures
            a.name_text() == b.name_text() <==> a == b,
            a.name_text().len() == b.name_text().len() <==> a == b,
    {
        reveal_strlit("radio_ok");
        reveal_strlit("radio_rx_empty");
        reveal_strlit("radio_error");
        reveal_strlit("radio_error_config");
    }
}

} // verus!
