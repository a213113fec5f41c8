use vstd::prelude::*;

use crate::state::{Command, State};

verus! {

/// An update from Telegram, as far as routing reads it.
#[derive(Clone, Debug, PartialEq, Eq)]
pub enum Incoming {
    /// A new message; `command` is the command its text parses to, if any.
    Message { command: Option<Command> },
    /// A press on an inline keyboard button.
    CallbackQuery,
    /// Any other kind of update.
    Other,
}

/// The handler that an update goes to.
#[derive(Clone, Debug, PartialEq, Eq)]
pub enum Endpoint {
    Help,
    Start,
    Mc,
    Balance,
    Cancel,
    ReceiveAddr,
    InvalidState,
    /// The answer to the notification keyboard, with what the dialogue stored.
    EnableNotification { addr: String, user_id: i64, message_id: i32 },
    /// No handler takes the update.
    Unhandled,
}

/// The endpoint that a command reaches in a given state, if the command
/// branch of the dispatcher takes it at all.
pub open spec fn command_endpoint(s: State, c: Command) -> Option<Endpoint> {
    match (s, c) {
        (State::Start, Command::Help) => Some(Endpoint::Help),
        (State::Start, Command::Start) => Some(Endpoint::Start),
        (State::Start, Command::Mc) => Some(Endpoint::Mc),
        (State::Register, Command::Help) => Some(Endpoint::Help),
        (State::Register, Command::Mc) => Some(Endpoint::Mc),
        (State::Register, Command::Balance) => Some(Endpoint::Balance),
        (State::Exit, Command::Help) => Some(Endpoint::Help),
        (State::Exit, Command::Mc) => Some(Endpoint::Mc),
        (State::Exit, Command::Start) => Some(Endpoint::Start),
        (_, Command::Cancel) => Some(Endpoint::Cancel),
        _ => None,
    }
}

/// Where the dispatcher sends an update that arrives for a chat in state `s`.
/// A message goes to the command branch first, then to the address handler
/// when the bot waits for an address, and otherwise to `InvalidState`.
pub open spec fn route_spec(s: State, u: Incoming) -> Endpoint {
    match u {
        Incoming::Message { command } => match command {
            Some(c) if command_endpoint(s, c) is Some => command_endpoint(s, c).unwrap(),
            _ => if s is ReceiveAddr { Endpoint::ReceiveAddr } else { Endpoint::InvalidState },
        },
        Incoming::CallbackQuery => match s {
            State::EnableNotification { addr, user_id, message_id } =>
                Endpoint::EnableNotification { addr, user_id, message_id },
            _ => Endpoint::Unhandled,
        },
        Incoming::Other => Endpoint::Unhandled,
    }
}

fn command_route(s: &State, c: Command) -> (r: Option<Endpoint>)
    ensures
        r == command_endpoint(*s, c),
{
    match s {
        State::Start => match c {
            Command::Help => Some(Endpoint::Help),
            Command::Start => Some(Endpoint::Start),
            Command::Mc => Some(Endpoint::Mc),
            Command::Cancel => Some(Endpoint::Cancel),
            Command::Balance => None,
        },
        State::Register => match c {
            Command::Help => Some(Endpoint::Help),
            Command::Mc => Some(Endpoint::Mc),
            Command::Balance => Some(Endpoint::Balance),
            Command::Cancel => Some(Endpoint::Cancel),
            Command::Start => None,
        },
        State::Exit => match c {
            Command::Help => Some(Endpoint::Help),
            Command::Mc => Some(Endpoint::Mc),
            Command::Start => Some(Endpoint::Start),
            Command::Cancel => Some(Endpoint::Cancel),
            Command::Balance => None,
        },
        _ => match c {
            Command::Cancel => Some(Endpoint::Cancel),
            _ => None,
        },
    }
}

/// Routes an update for a chat in `state` to its handler, as the bot's
/// dispatch tree does.
pub fn route(state: &State, update: &Incoming) -> (r: Endpoint)
    ensures
        r == route_spec(*state, *update),
{
    match update {
        Incoming::Message { command } => {
            let by_command = match command {
                Some(c) => command_route(state, *c),
                None => None,
            };
            match by_command {
                Some(e) => e,
                None => match state {
                    State::ReceiveAddr => Endpoint::ReceiveAddr,
                    _ => Endpoint::InvalidState,
                },
            }
        },
        Incoming::CallbackQuery => match state {
            State::EnableNotification { addr, user_id, message_id } => Endpoint::EnableNotification {
                addr: addr.clone(),
                user_id: *user_id,
                message_id: *message_id,
            },
            _ => Endpoint::Unhandled,
        },
        Incoming::Other => Endpoint::Unhandled,
    }
}

} // verus!
