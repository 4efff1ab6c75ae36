//! The command and response frames of the device protocol.
use vstd::prelude::*;
use vstd::string::*;

verus! {

/// Identifier of the characteristic that takes commands and answers them.
pub const COMMAND_CHAR: u128 = 0xd5913036_2d8a_41ee_85b9_4e361aa5c8a7;

/// Identifier of the characteristic that carries telemetry notifications.
pub const DATA_CHAR: u128 = 0x09bf2c52_d1d9_c0b7_4145_475964544307;

/// Offset of the operating-state byte in the response to `GetState`.
pub const STATE_OFFSET: usize = 4;

/// Operating state that the firmware of a device reports.
#[derive(Clone, Copy, Debug, PartialEq, Eq, Structural)]
pub enum MitchState {
    SysStartup,
    SysIdle,
    SysStandby,
    SysLog,
    SysReadout,
    SysTx,
    SysError,
    BootStartup,
    BootIdle,
    BootDownload,
}

/// Why a response could not be read as an operating state.
#[derive(Clone, Copy, Debug, PartialEq, Eq, Structural)]
pub enum ProtocolError {
    /// The state byte is none of the ten known codes.
    UnknownState(u8),
    /// The response ends before the state byte.
    ShortFrame,
}

/// The text of one decimal digit.
pub open spec fn digit(d: nat) -> Seq<char> {
    if d == 0 {
        "0"@
    } else if d == 1 {
        "1"@
    } else if d == 2 {
        "2"@
    } else if d == 3 {
        "3"@
    } else if d == 4 {
        "4"@
    } else if d == 5 {
        "5"@
    } else if d == 6 {
        "6"@
    } else if d == 7 {
        "7"@
    } else if d == 8 {
        "8"@
    } else {
        "9"@
    }
}

/// A number in decimal digits, without leading zeros.
pub open spec fn decimal(n: nat) -> Seq<char>
    decreases n,
{
    if n < 10 {
        digit(n)
    } else {
        decimal(n / 10) + digit(n % 10)
    }
}

fn digit_text(d: u8) -> (text: &'static str)
    requires
        d < 10,
    ensures
        text@ == digit(d as nat),
{
    if d == 0 {
        "0"
    } else if d == 1 {
        "1"
    } else if d == 2 {
        "2"
    } else if d == 3 {
        "3"
    } else if d == 4 {
        "4"
    } else if d == 5 {
        "5"
    } else if d == 6 {
        "6"
    } else if d == 7 {
        "7"
    } else if d == 8 {
        "8"
    } else {
        "9"
    }
}

impl ProtocolError {
    /// The text that tells the user of this error.
    pub open spec fn text(self) -> Seq<char> {
        match self {
            ProtocolError::UnknownState(value) => "Unknown state: "@ + decimal(value as nat),
            ProtocolError::ShortFrame => "Response too short"@,
        }
    }

    /// The text that tells the user of this error; an unknown state byte is
    /// named in decimal.
    pub fn message(&self) -> (text: String)
        ensures
            text@ == self.text(),
    {
        match self {
            ProtocolError::UnknownState(value) => {
                let value = *value;
                let mut text = String::from_str("Unknown state: ");
                if value >= 100 {
                    text.append(digit_text(value / 100));
                }
                if value >= 10 {
                    text.append(digit_text((value / 10) % 10));
                }
                text.append(digit_text(value % 10));
                proof {
                    reveal_with_fuel(decimal, 3);
                }
                text
            },
            ProtocolError::ShortFrame => String::from_str("Response too short"),
        }
    }
}

impl MitchState {
    /// The byte that stands for this state on the wire.
    pub open spec fn wire_code(self) -> u8 {
        match self {
            MitchState::SysStartup => 0x01,
            MitchState::SysIdle => 0x02,
            MitchState::SysStandby => 0x03,
            MitchState::SysLog => 0x04,
            MitchState::SysReadout => 0x05,
            MitchState::SysTx => 0xF8,
            MitchState::SysError => 0xFF,
            MitchState::BootStartup => 0xF0,
            MitchState::BootIdle => 0xF1,
            MitchState::BootDownload => 0xF2,
        }
    }

    /// The state that a wire byte stands for, if it stands for one.
    pub open spec fn of_code(code: u8) -> Option<MitchState> {
        if code == 0x01 {
            Some(MitchState::SysStartup)
        } else if code == 0x02 {
            Some(MitchState::SysIdle)
        } else if code == 0x03 {
            Some(MitchState::SysStandby)
        } else if code == 0x04 {
            Some(MitchState::SysLog)
        } else if code == 0x05 {
            Some(MitchState::SysReadout)
        } else if code == 0xF8 {
            Some(MitchState::SysTx)
        } else if code == 0xFF {
            Some(MitchState::SysError)
        } else if code == 0xF0 {
            Some(MitchState::BootStartup)
        } else if code == 0xF1 {
            Some(MitchState::BootIdle)
        } else if code == 0xF2 {
            Some(MitchState::BootDownload)
        } else {
            None
        }
    }

    /// The name of the state as it is shown to the user.
    pub open spec fn label(self) -> Seq<char> {
        match self {
            MitchState::SysStartup => "SysStartup"@,
            MitchState::SysIdle => "SysIdle"@,
            MitchState::SysStandby => "SysStandby"@,
            MitchState::SysLog => "SysLog"@,
            MitchState::SysReadout => "SysReadout"@,
            MitchState::SysTx => "SysTx"@,
            MitchState::SysError => "SysError"@,
            MitchState::BootStartup => "BootStartup"@,
            MitchState::BootIdle => "BootIdle"@,
            MitchState::BootDownload => "BootDownload"@,
        }
    }

    /// The wire byte of this state.
    pub fn code(self) -> (code: u8)
        ensures
            code == self.wire_code(),
    {
        match self {
            MitchState::SysStartup => 0x01,
            MitchState::SysIdle => 0x02,
            MitchState::SysStandby => 0x03,
            MitchState::SysLog => 0x04,
            MitchState::SysReadout => 0x05,
            MitchState::SysTx => 0xF8,
            MitchState::SysError => 0xFF,
            MitchState::BootStartup => 0xF0,
            MitchState::BootIdle => 0xF1,
            MitchState::BootDownload => 0xF2,
        }
    }

    /// The name of the state as text.
    pub fn name(self) -> (text: &'static str)
        ensures
            text@ == self.label(),
    {
        match self {
            MitchState::SysStartup => "SysStartup",
            MitchState::SysIdle => "SysIdle",
            MitchState::SysStandby => "SysStandby",
            MitchState::SysLog => "SysLog",
            MitchState::SysReadout => "SysReadout",
            MitchState::SysTx => "SysTx",
            MitchState::SysError => "SysError",
            MitchState::BootStartup => "BootStartup",
            MitchState::BootIdle => "BootIdle",
            MitchState::BootDownload => "BootDownload",
        }
    }
}

impl TryFrom<u8> for MitchState {
    type Error = ProtocolError;

    /// Reads a wire byte as a state; a byte outside the table is handed back
    /// in `UnknownState`.
    fn try_from(value: u8) -> (r: Result<MitchState, ProtocolError>) {
        if value == 0x01 {
            Ok(MitchState::SysStartup)
        } else if value == 0x02 {
            Ok(MitchState::SysIdle)
        } else if value == 0x03 {
            Ok(MitchState::SysStandby)
        } else if value == 0x04 {
            Ok(MitchState::SysLog)
        } else if value == 0x05 {
            Ok(MitchState::SysReadout)
        } else if value == 0xF8 {
            Ok(MitchState::SysTx)
        } else if value == 0xFF {
            Ok(MitchState::SysError)
        } else if value == 0xF0 {
            Ok(MitchState::BootStartup)
        } else if value == 0xF1 {
            Ok(MitchState::BootIdle)
        } else if value == 0xF2 {
            Ok(MitchState::BootDownload)
        } else {
            Err(ProtocolError::UnknownState(value))
        }
    }
}

impl vstd::std_specs::convert::TryFromSpecImpl<u8> for MitchState {
    open spec fn obeys_try_from_spec() -> bool {
        true
    }

    open spec fn try_from_spec(value: u8) -> Result<MitchState, ProtocolError> {
        match MitchState::of_code(value) {
            Some(state) => Ok(state),
            None => Err(ProtocolError::UnknownState(value)),
        }
    }
}

/// The operations that a device can be asked for.
#[derive(Clone, Copy, Debug, PartialEq, Eq, Structural)]
pub enum Commands {
    GetState,
    StartStream,
    StopStream,
}

impl Commands {
    /// The byte frame that asks for this operation.
    pub open spec fn frame(self) -> Seq<u8> {
        match self {
            Commands::GetState => seq![0x82u8, 0x00u8],
            Commands::StartStream => seq![0x02u8, 0x03u8, 0xF8u8, 0x04u8, 0x04u8],
            Commands::StopStream => seq![0x02u8, 0x01u8, 0x02u8],
        }
    }

    /// The frame of this command as a borrowed slice.
    pub fn as_ref(&self) -> (bytes: &'static [u8])
        ensures
            bytes@ == self.frame(),
    {
        match self {
            Commands::GetState => {
                let frame: &'static [u8; 2] = &[0x82u8, 0x00u8];
                frame.as_slice()
            },
            Commands::StartStream => {
                let frame: &'static [u8; 5] = &[0x02u8, 0x03u8, 0xF8u8, 0x04u8, 0x04u8];
                frame.as_slice()
            },
            Commands::StopStream => {
                let frame: &'static [u8; 3] = &[0x02u8, 0x01u8, 0x02u8];
                frame.as_slice()
            },
        }
    }
}

/// The frame to write for `command`.
pub fn encode(command: Commands) -> (frame: Vec<u8>)
    ensures
        frame@ == command.frame(),
{
    let mut frame: Vec<u8> = Vec::new();
    match command {
        Commands::GetState => {
            frame.push(0x82);
            frame.push(0x00);
        },
        Commands::StartStream => {
            frame.push(0x02);
            frame.push(0x03);
            frame.push(0xF8);
            frame.push(0x04);
            frame.push(0x04);
        },
        Commands::StopStream => {
            frame.push(0x02);
            frame.push(0x01);
            frame.push(0x02);
        },
    }
    frame
}

/// What a response to `GetState` says: the state whose code stands at
/// `STATE_OFFSET`. No other byte of the response is looked at.
pub open spec fn decoded(response: Seq<u8>) -> Result<MitchState, ProtocolError> {
    if response.len() <= STATE_OFFSET {
        Err(ProtocolError::ShortFrame)
    } else {
        match MitchState::of_code(response[STATE_OFFSET as int]) {
            Some(state) => Ok(state),
            None => Err(ProtocolError::UnknownState(response[STATE_OFFSET as int])),
        }
    }
}

/// Reads the operating state out of a response to `GetState`.
pub fn decode_state(response: &[u8]) -> (r: Result<MitchState, ProtocolError>)
    ensures
        r == decoded(response@),
{
    if response.len() <= STATE_OFFSET {
        return Err(ProtocolError::ShortFrame);
    }
    MitchState::try_from(response[STATE_OFFSET])
}

/// Sorts a notification by the characteristic that sent it: the value of a
/// notification of the telemetry characteristic is handed on as it is, and
/// every other notification is dropped.
pub fn telemetry_frame(characteristic: u128, value: Vec<u8>) -> (frame: Option<Vec<u8>>)
    ensures
        frame == if characteristic == DATA_CHAR {
            Some(value)
        } else {
            None::<Vec<u8>>
        },
{
    if characteristic == DATA_CHAR {
        Some(value)
    } else {
        None
    }
}

/// Decoding undoes the state table: a byte is read as a state exactly when it
/// is the wire code of that state.
pub proof fn lemma_code_table_is_a_bijection(state: MitchState, code: u8)
    ensures
        MitchState::of_code(state.wire_code()) == Some(state),
        MitchState::of_code(code) == Some(state) <==> code == state.wire_code(),
{
}

/// A response of at least five bytes whose byte at offset four is the wire
/// code of `state` decodes to `state`, whatever its other bytes hold.
pub proof fn lemma_decode_known_code(response: Seq<u8>, state: MitchState)
    requires
        response.len() > STATE_OFFSET,
        response[STATE_OFFSET as int] == state.wire_code(),
    ensures
        decoded(response) == Ok::<MitchState, ProtocolError>(state),
{
}

/// A response of at least five bytes whose byte at offset four is the code of
/// no state is refused with `UnknownState` of that byte.
pub proof fn lemma_decode_unknown_code(response: Seq<u8>)
    requires
        response.len() > STATE_OFFSET,
        forall|state: MitchState| response[STATE_OFFSET as int] != #[trigger] state.wire_code(),
    ensures
        decoded(response) == Err::<MitchState, ProtocolError>(
            ProtocolError::UnknownState(response[STATE_OFFSET as int]),
        ),
{
    let code = response[STATE_OFFSET as int];
    if let Some(state) = MitchState::of_code(code) {
        assert(code == state.wire_code());
    }
}

/// A response that ends before the state byte is refused with `ShortFrame`.
pub proof fn lemma_decode_short_frame(response: Seq<u8>)
    requires
        response.len() <= STATE_OFFSET,
    ensures
        decoded(response) == Err::<MitchState, ProtocolError>(ProtocolError::ShortFrame),
{
}

/// The frame of a command depends on the command alone, and no two commands
/// share a frame.
pub proof fn lemma_frames_identify_commands(a: Commands, b: Commands)
    ensures
        a == b <==> a.frame() == b.frame(),
        2 <= a.frame().len() <= 5,
{
}

} // verus!
