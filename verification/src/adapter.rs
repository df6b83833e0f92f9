//! The byte formats of the audio adapter's control channel: which message
//! formats and commands exist, how a control message is decoded, and how
//! recorded samples are laid out as bytes.

use vstd::prelude::*;

verus! {

/// The formats of a message to the adapter, by their number on the wire.
#[derive(Clone, Copy, Debug, PartialEq, Eq, Structural)]
pub enum AdapterMessageFormat {
    ControlFlow,
}

/// The commands of a control-flow message, by their number on the wire: 0
/// to 3 in the order written here.
#[derive(Clone, Copy, Debug, PartialEq, Eq, Structural)]
pub enum ControlFlowCommand {
    Open,
    Close,
    Play,
    Stop,
}

/// Why a control message was not understood.
#[derive(Clone, Copy, Debug, PartialEq, Eq, Structural)]
pub enum AdapterError {
    /// The message is empty, or its first byte is no command.
    InvalidControlFlowCommand,
}

/// The format with the given number, if there is one.
pub open spec fn format_of(number: u16) -> Option<AdapterMessageFormat> {
    if number == 0 {
        Some(AdapterMessageFormat::ControlFlow)
    } else {
        None
    }
}

/// The command with the given number, if there is one.
pub open spec fn command_of(number: u8) -> Option<ControlFlowCommand> {
    if number == 0 {
        Some(ControlFlowCommand::Open)
    } else if number == 1 {
        Some(ControlFlowCommand::Close)
    } else if number == 2 {
        Some(ControlFlowCommand::Play)
    } else if number == 3 {
        Some(ControlFlowCommand::Stop)
    } else {
        None
    }
}

/// The command that a control message carries: the one numbered by its
/// first byte.
pub open spec fn control_flow_of(buffer: Seq<u8>) -> Option<ControlFlowCommand> {
    if buffer.len() == 0 {
        None
    } else {
        command_of(buffer[0])
    }
}

impl AdapterMessageFormat {
    /// The format with the given number; the number comes back where
    /// there is none.
    pub fn try_from_primitive(number: u16) -> (r: Result<Self, u16>)
        ensures
            r == match format_of(number) {
                Some(format) => Ok::<Self, u16>(format),
                None => Err::<Self, u16>(number),
            },
    {
        if number == 0 {
            Ok(AdapterMessageFormat::ControlFlow)
        } else {
            Err(number)
        }
    }
}

impl ControlFlowCommand {
    /// The command with the given number; the number comes back where
    /// there is none.
    pub fn try_from_primitive(number: u8) -> (r: Result<Self, u8>)
        ensures
            r == match command_of(number) {
                Some(command) => Ok::<Self, u8>(command),
                None => Err::<Self, u8>(number),
            },
    {
        if number == 0 {
            Ok(ControlFlowCommand::Open)
        } else if number == 1 {
            Ok(ControlFlowCommand::Close)
        } else if number == 2 {
            Ok(ControlFlowCommand::Play)
        } else if number == 3 {
            Ok(ControlFlowCommand::Stop)
        } else {
            Err(number)
        }
    }
}

/// Decodes a control message.
pub fn handle_control_flow(buffer: &[u8]) -> (r: Result<ControlFlowCommand, AdapterError>)
    ensures
        r == match control_flow_of(buffer@) {
            Some(command) => Ok::<ControlFlowCommand, AdapterError>(command),
            None => Err::<ControlFlowCommand, AdapterError>(
                AdapterError::InvalidControlFlowCommand,
            ),
        },
{
    if buffer.len() == 0 {
        return Err(AdapterError::InvalidControlFlowCommand);
    }
    match ControlFlowCommand::try_from_primitive(buffer[0]) {
        Ok(command) => Ok(command),
        Err(_) => Err(AdapterError::InvalidControlFlowCommand),
    }
}

/// A sample as an unsigned 16-bit number, in two's complement.
pub open spec fn unsigned_sample(sample: i16) -> int {
    if sample < 0 {
        sample + 65536
    } else {
        sample as int
    }
}

/// Samples as bytes, two for each, the low byte first.
pub open spec fn pcm_bytes(samples: Seq<i16>) -> Seq<u8> {
    Seq::new(
        2 * samples.len(),
        |i: int|
            if i % 2 == 0 {
                (unsigned_sample(samples[i / 2]) % 256) as u8
            } else {
                (unsigned_sample(samples[i / 2]) / 256) as u8
            },
    )
}

/// Lays samples out as bytes for the wire: 16 bits each, little-endian.
pub fn pcm_to_bytes(samples: &[i16]) -> (bytes: Vec<u8>)
    ensures
        bytes@ == pcm_bytes(samples@),
{
    let mut bytes: Vec<u8> = Vec::new();
    let mut i: usize = 0;
    while i < samples.len()
        invariant
            i <= samples@.len(),
            bytes@.len() == 2 * i,
            forall|j: int| 0 <= j < bytes@.len() ==> bytes@[j] == pcm_bytes(samples@)[j],
        decreases samples@.len() - i,
    {
        let sample: i32 = samples[i] as i32;
        let unsigned: i32 = if sample < 0 {
            sample + 65536
        } else {
            sample
        };
        let low: u8 = (unsigned % 256) as u8;
        let high: u8 = (unsigned / 256) as u8;
        bytes.push(low);
        bytes.push(high);
        i = i + 1;
    }
    assert(bytes@ =~= pcm_bytes(samples@));
    bytes
}

} // verus!
