use vstd::prelude::*;

verus! {

/// One remote-control action: target coordinates and an opaque action token.
#[derive(Clone, Debug)]
pub struct RemoteCommand {
    pub x: i32,
    pub y: i32,
    pub action: String,
}

/// Which field of a command payload was absent.
#[derive(PartialEq, Eq, Structural, Clone, Copy, Debug)]
pub enum CommandField {
    X,
    Y,
    Action,
}

/// A command payload as it arrived: each field present or not.
#[derive(Clone, Debug)]
pub struct CommandFields {
    pub x: Option<i32>,
    pub y: Option<i32>,
    pub action: Option<String>,
}

/// Why a command payload was rejected.
#[derive(PartialEq, Eq, Structural, Clone, Copy, Debug)]
pub enum CommandError {
    MissingField(CommandField),
}

impl CommandError {
    /// The HTTP status that reports this error: the payload was well formed
    /// but could not be turned into a command.
    pub fn status_code(&self) -> (r: u16)
        ensures
            r == 422,
    {
        match self {
            CommandError::MissingField(_) => 422,
        }
    }
}

/// The first absent field of a payload, in the order `x`, `y`, `action`.
pub open spec fn first_missing(f: CommandFields) -> Option<CommandField> {
    if f.x is None {
        Some(CommandField::X)
    } else if f.y is None {
        Some(CommandField::Y)
    } else if f.action is None {
        Some(CommandField::Action)
    } else {
        None
    }
}

/// The command that a complete payload describes.
pub open spec fn command_of(f: CommandFields) -> RemoteCommand
    recommends
        first_missing(f) is None,
{
    RemoteCommand { x: f.x->0, y: f.y->0, action: f.action->0 }
}

/// Turns a payload into a command; fails on the first absent field.
pub fn parse_command(fields: CommandFields) -> (r: Result<RemoteCommand, CommandError>)
    ensures
        r is Ok <==> first_missing(fields) is None,
        r is Ok ==> r->Ok_0 == command_of(fields),
        r is Err ==> r->Err_0 == CommandError::MissingField(first_missing(fields)->0),
{
    match (fields.x, fields.y, fields.action) {
        (Some(x), Some(y), Some(action)) => Ok(RemoteCommand { x, y, action }),
        (None, _, _) => Err(CommandError::MissingField(CommandField::X)),
        (Some(_), None, _) => Err(CommandError::MissingField(CommandField::Y)),
        (Some(_), Some(_), None) => Err(CommandError::MissingField(CommandField::Action)),
    }
}

} // verus!
