//! Frames received from the radio.

use vstd::prelude::*;

verus! {

/// The number of bytes in the driver's receive buffer. No frame is longer.
pub const RX_MAX_SIZE: usize = 200;

/// A received frame as the driver hands it over.
///
/// The driver fills the fields in place. `msg_size` says how many bytes at
/// the start of `message` belong to the frame; the bytes behind them are
/// whatever the buffer held before.
#[allow(non_camel_case_types)]
#[derive(Debug, Clone, Copy, PartialEq, Eq)]
pub struct radio_rx_message {
    /// The length of the frame in bytes.
    pub msg_size: u16,
    /// The Doppler offset measured while the frame was received.
    pub doppler_offset: u16,
    /// The signal strength measured while the frame was received.
    pub signal_strength: u16,
    /// The receive buffer; the frame is at its start.
    pub message: [u8; RX_MAX_SIZE],
}

impl radio_rx_message {
    /// The bytes of the receive buffer, first to last.
    pub open spec fn buffer(self) -> Seq<u8> {
        self.message@
    }

    /// The number of bytes that may be read as the frame: `msg_size`, held
    /// down to the size of the buffer.
    pub open spec fn payload_size(self) -> nat {
        if self.msg_size <= RX_MAX_SIZE {
            self.msg_size as nat
        } else {
            RX_MAX_SIZE as nat
        }
    }

    /// The frame: the first `payload_size` bytes of the buffer.
    pub open spec fn payload_bytes(self) -> Seq<u8> {
        self.buffer().take(self.payload_size() as int)
    }

    /// Returns the number of bytes that may be read as the frame.
    pub fn payload_len(&self) -> (len: usize)
        ensures
            len == self.payload_size(),
            len <= RX_MAX_SIZE,
    {
        if self.msg_size as usize <= RX_MAX_SIZE {
            self.msg_size as usize
        } else {
            RX_MAX_SIZE
        }
    }

    /// Returns the frame's bytes.
    pub fn payload(&self) -> (bytes: Vec<u8>)
        ensures
            bytes@ == self.payload_bytes(),
    {
        let len: usize = self.payload_len();
        let mut bytes: Vec<u8> = Vec::new();
        let mut i: usize = 0;
        while i < len
            invariant
                i <= len,
                len == self.payload_size(),
                len <= RX_MAX_SIZE,
                bytes@ == self.buffer().take(i as int),
            decreases len - i,
        {
            bytes.push(self.message[i]);
            proof {
                assert(self.buffer().take(i + 1) =~= self.buffer().take(i as int).push(
                    self.buffer()[i as int],
                ));
            }
            i = i + 1;
        }
        bytes
    }

    /// The buffer holds exactly `RX_MAX_SIZE` bytes, and whatever `msg_size`
    /// says, the frame read from it is no longer than that.
    pub proof fn lemma_payload_within_buffer(self)
        ensures
            self.buffer().len() == RX_MAX_SIZE,
            self.payload_size() <= RX_MAX_SIZE,
            self.payload_bytes().len() == self.payload_size(),
            self.msg_size <= RX_MAX_SIZE ==> self.payload_size() == self.msg_size,
            self.payload_bytes().is_prefix_of(self.buffer()),
    {
    }
}

} // verus!
