//! The command-line surface of the installer: which command it was started
//! with, and how that command is rendered for diagnostics.

use vstd::prelude::*;

verus! {

/// Arguments of the update command.
#[derive(Debug)]
pub struct UpdateArgs {
    /// An optional session token handed over by the running application.
    pub token: Option<String>,
}

impl UpdateArgs {
    /// A deep copy of these arguments.
    pub fn duplicate(&self) -> (r: UpdateArgs)
        ensures
            r == *self,
    {
        UpdateArgs {
            token: match &self.token {
                Some(t) => Some(t.clone()),
                None => None,
            },
        }
    }
}

/// What the installer was asked to do.
#[derive(Debug)]
pub enum Command {
    /// A fresh installation.
    Install,
    /// An update of an existing installation.
    Update(UpdateArgs),
}

/// The diagnostic rendering of a command.
pub open spec fn spec_command_str(c: Command) -> Seq<char> {
    match c {
        Command::Install => "install"@,
        Command::Update(args) => match args.token {
            Some(t) => "update "@ + t@,
            None => "update"@,
        },
    }
}

impl Command {
    /// A deep copy of this command.
    pub fn duplicate(&self) -> (r: Command)
        ensures
            r == *self,
    {
        match self {
            Command::Install => Command::Install,
            Command::Update(args) => Command::Update(args.duplicate()),
        }
    }

    /// The command as a diagnostic string: `install`, `update`, or
    /// `update` followed by the token.
    pub fn command_as_str(&self) -> (r: String)
        ensures
            r@ == spec_command_str(*self),
    {
        match self {
            Command::Install => String::from_str("install"),
            Command::Update(args) => match &args.token {
                Some(token) => String::from_str("update ").concat(token.as_str()),
                None => String::from_str("update"),
            },
        }
    }
}

/// The parsed command line: the chosen command, if any was given.
#[derive(Debug)]
pub struct Cli {
    pub command: Option<Command>,
}

impl Cli {
    /// The command to run: what was given, or a fresh installation.
    pub fn command(&self) -> (r: Command)
        ensures
            r == match self.command {
                Some(c) => c,
                None => Command::Install,
            },
    {
        match &self.command {
            Some(c) => c.duplicate(),
            None => Command::Install,
        }
    }

    /// The diagnostic rendering of the command to run.
    pub fn command_as_str(&self) -> (r: String)
        ensures
            r@ == spec_command_str(
                match self.command {
                    Some(c) => c,
                    None => Command::Install,
                },
            ),
    {
        self.command().command_as_str()
    }
}

} // verus!
