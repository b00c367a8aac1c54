//! The command-line surface: subcommands and parsed arguments.

use vstd::prelude::*;
use crate::socket::Request;
use crate::text;

verus! {

/// The subcommand a caller picked.
#[derive(Clone, Copy, Debug, PartialEq, Eq, Structural)]
pub enum Cmd {
    /// Run the daemon.
    Daemon,
    /// Enable party mode.
    On,
    /// Disable party mode.
    Off,
    /// Toggle party mode.
    Toggle,
    /// Show the status.
    Status,
}

impl Cmd {
    /// The word the subcommand is written as.
    pub open spec fn spec_name(self) -> Seq<char> {
        match self {
            Cmd::Daemon => "daemon"@,
            Cmd::On => "on"@,
            Cmd::Off => "off"@,
            Cmd::Toggle => "toggle"@,
            Cmd::Status => "status"@,
        }
    }

    /// The word the subcommand is written as.
    pub fn name(&self) -> (r: &'static str)
        ensures
            r@ == self.spec_name(),
    {
        match self {
            Cmd::Daemon => "daemon",
            Cmd::On => "on",
            Cmd::Off => "off",
            Cmd::Toggle => "toggle",
            Cmd::Status => "status",
        }
    }

    /// The help line of the subcommand.
    pub open spec fn spec_about(self) -> Seq<char> {
        match self {
            Cmd::Daemon => "Run the partymode daemon"@,
            Cmd::On => "Enable party mode"@,
            Cmd::Off => "Disable party mode"@,
            Cmd::Toggle => "Toggle party mode"@,
            Cmd::Status => "Show the current status"@,
        }
    }

    /// The help line of the subcommand.
    pub fn about(&self) -> (r: &'static str)
        ensures
            r@ == self.spec_about(),
    {
        match self {
            Cmd::Daemon => "Run the partymode daemon",
            Cmd::On => "Enable party mode",
            Cmd::Off => "Disable party mode",
            Cmd::Toggle => "Toggle party mode",
            Cmd::Status => "Show the current status",
        }
    }

    /// The subcommand a word names, trying the words in a fixed order.
    pub open spec fn spec_from_name(s: Seq<char>) -> Option<Cmd> {
        if s == "daemon"@ {
            Some(Cmd::Daemon)
        } else if s == "on"@ {
            Some(Cmd::On)
        } else if s == "off"@ {
            Some(Cmd::Off)
        } else if s == "toggle"@ {
            Some(Cmd::Toggle)
        } else if s == "status"@ {
            Some(Cmd::Status)
        } else {
            None
        }
    }

    /// The subcommand a word names; an unknown word gives `None`.
    pub fn from_name(s: &str) -> (r: Option<Cmd>)
        ensures
            r == Cmd::spec_from_name(s@),
    {
        if text::str_eq(s, "daemon") {
            Some(Cmd::Daemon)
        } else if text::str_eq(s, "on") {
            Some(Cmd::On)
        } else if text::str_eq(s, "off") {
            Some(Cmd::Off)
        } else if text::str_eq(s, "toggle") {
            Some(Cmd::Toggle)
        } else if text::str_eq(s, "status") {
            Some(Cmd::Status)
        } else {
            None
        }
    }

    /// The control request the subcommand stands for; running the daemon is
    /// not a control request.
    pub fn to_request(&self) -> (r: Option<Request>)
        ensures
            r == match *self {
                Cmd::Daemon => None::<Request>,
                Cmd::On => Some(Request::SetEnabled { enabled: true }),
                Cmd::Off => Some(Request::SetEnabled { enabled: false }),
                Cmd::Toggle => Some(Request::Toggle),
                Cmd::Status => Some(Request::Status),
            },
    {
        match self {
            Cmd::Daemon => None,
            Cmd::On => Some(Request::SetEnabled { enabled: true }),
            Cmd::Off => Some(Request::SetEnabled { enabled: false }),
            Cmd::Toggle => Some(Request::Toggle),
            Cmd::Status => Some(Request::Status),
        }
    }
}

/// Command line arguments of the program.
pub struct Args {
    cmd: Cmd,
    config: Option<String>,
    verbose: bool,
}

impl Args {
    /// The subcommand to run.
    pub closed spec fn spec_cmd(self) -> Cmd {
        self.cmd
    }

    /// A custom location for the config file, when one was given.
    pub closed spec fn spec_config(self) -> Option<Seq<char>> {
        self.config.deep_view()
    }

    /// Whether verbose logging was asked for.
    pub closed spec fn spec_verbose(self) -> bool {
        self.verbose
    }

    /// Bundles a parsed command line.
    pub fn new(cmd: Cmd, config: Option<String>, verbose: bool) -> (a: Args)
        ensures
            a.spec_cmd() == cmd,
            a.spec_config() == config.deep_view(),
            a.spec_verbose() == verbose,
    {
        Args { cmd, config, verbose }
    }

    /// The subcommand to run.
    pub fn cmd(&self) -> (r: Cmd)
        ensures
            r == self.spec_cmd(),
    {
        self.cmd
    }

    /// A custom location for the config file, when one was given.
    pub fn config(&self) -> (r: &Option<String>)
        ensures
            r.deep_view() == self.spec_config(),
    {
        &self.config
    }

    /// Whether verbose logging was asked for.
    pub fn verbose(&self) -> (r: bool)
        ensures
            r == self.spec_verbose(),
    {
        self.verbose
    }
}

} // verus!
