//! Telemetry requests and the buffer that the driver fills for them.

use vstd::prelude::*;

verus! {

/// The telemetry buffer that the driver fills.
///
/// The driver keeps several layouts in these twelve bytes, the largest of
/// them six 16-bit values. Which one a filled buffer holds is decided by the
/// [`radio_telem_type`] that was asked for, and the bytes mean something only
/// when the driver reported `radio_ok`.
#[allow(non_camel_case_types)]
#[derive(Debug, Clone, Copy, PartialEq, Eq)]
pub struct radio_telem(pub [u8; 12]);

impl radio_telem {
    /// The buffer's bytes, first to last.
    pub open spec fn bytes(self) -> Seq<u8> {
        self.0@
    }

    /// A buffer holds twelve bytes, whichever kind of telemetry is asked for.
    pub proof fn lemma_size(self, telem_type: radio_telem_type)
        ensures
            self.bytes().len() == 12,
    {
    }
}

/// The kind of telemetry to read from the radio.
///
/// The variants are declared in the order of the driver's own enumeration,
/// so that each variant's position is the number the driver uses for it.
#[allow(non_camel_case_types)]
#[derive(Debug, Clone, Copy, PartialEq, Eq, Structural)]
pub enum radio_telem_type {
    /// All transmitter telemetry.
    tx_telem_all,
    /// Transmitter telemetry of the last transmission.
    tx_telem_last,
    /// Transmitter uptime.
    tx_uptime,
    /// Transmitter state.
    tx_state,
    /// All receiver telemetry.
    rx_telem_all,
    /// Receiver uptime.
    rx_uptime,
}

impl radio_telem_type {
    /// The number the driver uses for the variant: its position in the
    /// declaration, counted from zero.
    pub open spec fn ordinal_value(self) -> nat {
        match self {
            radio_telem_type::tx_telem_all => 0,
            radio_telem_type::tx_telem_last => 1,
            radio_telem_type::tx_uptime => 2,
            radio_telem_type::tx_state => 3,
            radio_telem_type::rx_telem_all => 4,
            radio_telem_type::rx_uptime => 5,
        }
    }

    /// Returns the number the driver uses for the variant.
    pub fn ordinal(&self) -> (value: u32)
        ensures
            value == self.ordinal_value(),
    {
        *self as u32
    }

    /// Returns the variant that the driver numbers `value`, if there is one.
    pub fn from_ordinal(value: u32) -> (telem_type: Option<radio_telem_type>)
        ensures
            value < 6 ==> telem_type is Some && telem_type->Some_0.ordinal_value() == value,
            value >= 6 ==> telem_type is None,
    {
        match value {
            0 => Some(radio_telem_type::tx_telem_all),
            1 => Some(radio_telem_type::tx_telem_last),
            2 => Some(radio_telem_type::tx_uptime),
            3 => Some(radio_telem_type::tx_state),
            4 => Some(radio_telem_type::rx_telem_all),
            5 => Some(radio_telem_type::rx_uptime),
            _ => None,
        }
    }

    /// The ordinals of the six variants are the numbers 0 to 5, and no two
    /// variants share one.
    pub proof fn lemma_ordinal_identifies(a: radio_telem_type, b: radio_telem_type)
        ensures
            a.ordinal_value() < 6,
            a.ordinal_value() == b.ordinal_value() <==> a == b,
    {
    }
}

} // verus!
