//! The message layer that the commands are encoded into: channels, network
//! functions, request messages, completion codes and the command trait.

use vstd::prelude::*;

verus! {

/// An IPMI channel number.
///
/// Channel numbers are 4 bits wide, so valid values are `0x0..=0xF`.
#[derive(Clone, Copy, Debug, PartialEq, Eq, Structural)]
pub struct Channel(u8);

impl Channel {
    #[verifier::type_invariant]
    spec fn fits_nibble(self) -> bool {
        self.0 <= 0x0F
    }

    /// Create a new `Channel`. Returns `None` if `value` does not fit in 4 bits.
    pub fn new(value: u8) -> (r: Option<Self>)
        ensures
            r is Some <==> value <= 0x0F,
            r matches Some(c) ==> c@ == value,
    {
        if value <= 0x0F {
            Some(Channel(value))
        } else {
            None
        }
    }

    /// The numeric value of this channel.
    pub fn value(&self) -> (r: u8)
        ensures
            r == self@,
            r <= 0x0F,
    {
        proof {
            use_type_invariant(self);
        }
        self.0
    }
}

impl View for Channel {
    type V = u8;

    closed spec fn view(&self) -> u8 {
        self.0
    }
}

/// A `Channel` is determined by its number: two channels with the same value
/// are the same channel, so `Channel::new(c.value())` gives back `Some(c)`.
pub proof fn lemma_channel_determined_by_value(a: Channel, b: Channel)
    requires
        a@ == b@,
    ensures
        a == b,
{
}

/// The network function of a request.
#[derive(Clone, Copy, Debug, PartialEq, Eq, Structural)]
pub enum NetFn {
    /// Application requests.
    App,
}

/// A request message: network function, command number and data bytes.
#[derive(Debug)]
pub struct Message {
    /// The network function.
    pub netfn: NetFn,
    /// The command number within the network function.
    pub cmd: u8,
    /// The request data.
    pub data: Vec<u8>,
}

impl Message {
    /// Create a new request message.
    pub fn new_request(netfn: NetFn, cmd: u8, data: Vec<u8>) -> (m: Message)
        ensures
            m.netfn == netfn,
            m.cmd == cmd,
            m.data@ == data@,
    {
        Message { netfn, cmd, data }
    }
}

/// The response did not carry enough data to be parsed.
#[derive(Clone, Copy, Debug, PartialEq, Eq, Structural)]
pub struct NotEnoughData;

/// A non-zero completion code of a response.
#[derive(Clone, Copy, Debug, PartialEq, Eq, Structural)]
pub enum CompletionErrorCode {
    /// A command-specific completion code (`0x80..=0xBE`).
    CommandSpecific(u8),
    /// An OEM completion code (`0x01..=0x7E`).
    Oem(u8),
    /// Any other completion code.
    Other(u8),
}

/// A command that can be sent to a management controller.
pub trait IpmiCommand {
    /// The value a successful response decodes to.
    type Output;

    /// The error a response decodes to.
    type Error;

    /// Decode the data of a response whose completion code is `0x00`.
    fn parse_success_response(data: &[u8]) -> Result<Self::Output, Self::Error>;

    /// Map a non-zero completion code to an error of this command, if it has
    /// a meaning specific to this command.
    fn handle_completion_code(
        completion_code: CompletionErrorCode,
        data: &[u8],
    ) -> (r: Option<Self::Error>)
        default_ensures
            r is None,
    {
        None
    }
}

} // verus!
