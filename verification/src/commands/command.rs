//! The commands that the session set-up path itself issues.
use crate::parser::ipmi_payload::NetFn;
use vstd::prelude::*;

verus! {

/// A command code, named where the library knows it.
#[derive(Clone, Copy, Debug, PartialEq, Eq, Hash, Structural)]
pub enum Command {
    /// A code without a name here, or under a network function other than
    /// App.
    Unknown(u8),
    GetChannelAuthCapabilities,
    SetSessionPrivilegeLevel,
    GetChannelCipherSuites,
}

impl Command {
    /// The command code on the wire.
    pub open spec fn code(self) -> u8 {
        match self {
            Command::GetChannelAuthCapabilities => 0x38,
            Command::GetChannelCipherSuites => 0x54,
            Command::SetSessionPrivilegeLevel => 0x3b,
            Command::Unknown(x) => x,
        }
    }

    /// The command that `code` names under `net_fn`. Only the App network
    /// function has named commands.
    pub open spec fn from_code_and_netfn(code: u8, net_fn: NetFn) -> Command {
        if net_fn == NetFn::App && code == 0x38 {
            Command::GetChannelAuthCapabilities
        } else if net_fn == NetFn::App && code == 0x54 {
            Command::GetChannelCipherSuites
        } else if net_fn == NetFn::App && code == 0x3b {
            Command::SetSessionPrivilegeLevel
        } else {
            Command::Unknown(code)
        }
    }

    /// The network function that a named command belongs to.
    pub open spec fn spec_netfn(self) -> NetFn {
        match self {
            Command::Unknown(_) => NetFn::Unknown(0),
            _ => NetFn::App,
        }
    }

    /// Whether reading back the code of this command under `net_fn` gives
    /// this command.
    pub open spec fn is_canonical(self, net_fn: NetFn) -> bool {
        Command::from_code_and_netfn(self.code(), net_fn) == self
    }

    /// Every code is written back unchanged, whatever it was read as.
    pub proof fn lemma_code_of_from_code(code: u8, net_fn: NetFn)
        ensures
            Command::from_code_and_netfn(code, net_fn).code() == code,
            Command::from_code_and_netfn(code, net_fn).is_canonical(net_fn),
    {
    }

    /// Encodes this command.
    pub fn to_u8(&self) -> (r: u8)
        ensures
            r == self.code(),
    {
        match *self {
            Command::GetChannelAuthCapabilities => 0x38,
            Command::GetChannelCipherSuites => 0x54,
            Command::SetSessionPrivilegeLevel => 0x3b,
            Command::Unknown(x) => x,
        }
    }

    /// Decodes `command_code` under `net_fn`.
    pub fn from_u8_and_netfn(command_code: u8, net_fn: NetFn) -> (r: Command)
        ensures
            r == Command::from_code_and_netfn(command_code, net_fn),
    {
        match net_fn {
            NetFn::App => match command_code {
                0x38 => Command::GetChannelAuthCapabilities,
                0x54 => Command::GetChannelCipherSuites,
                0x3b => Command::SetSessionPrivilegeLevel,
                _ => Command::Unknown(command_code),
            },
            _ => Command::Unknown(command_code),
        }
    }

    /// The network function to send this command under; an unnamed command
    /// has none of its own.
    pub fn to_netfn(&self) -> (r: NetFn)
        ensures
            r == self.spec_netfn(),
    {
        match *self {
            Command::Unknown(_) => NetFn::Unknown(0),
            _ => NetFn::App,
        }
    }
}

} // verus!
