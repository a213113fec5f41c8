use vstd::prelude::*;

verus! {

/// Where a chat stands in the dialogue with the bot.
#[derive(Clone, Debug, PartialEq, Eq)]
pub enum State {
    /// Nothing asked yet; also the state of a chat the bot has never seen.
    Start,
    /// The bot waits for the user's Starknet address.
    ReceiveAddr,
    /// The address was accepted and the bot waits for the answer to the
    /// "enable notification" keyboard, shown in message `message_id`.
    EnableNotification { addr: String, user_id: i64, message_id: i32 },
    /// The user is registered.
    Register,
    /// The user cancelled the dialogue.
    Exit,
}

impl Default for State {
    fn default() -> (s: Self)
        ensures
            s == State::Start,
    {
        State::Start
    }
}

/// Every command the bot understands.
#[derive(Clone, Copy, Debug, PartialEq, Eq, Structural)]
pub enum Command {
    Help,
    Start,
    Mc,
    Balance,
    Cancel,
}

/// The commands advertised after a cancelled dialogue.
#[derive(Clone, Copy, Debug, PartialEq, Eq, Structural)]
pub enum ExitCommand {
    Help,
    Start,
    Mc,
}

/// The commands advertised while a registration is under way.
#[derive(Clone, Copy, Debug, PartialEq, Eq, Structural)]
pub enum StartCommand {
    Help,
    Cancel,
}

/// The commands advertised to a registered user.
#[derive(Clone, Copy, Debug, PartialEq, Eq, Structural)]
pub enum RegisterCommand {
    Help,
    Mc,
    Balance,
}

impl ExitCommand {
    pub open spec fn command(self) -> Command {
        match self {
            ExitCommand::Help => Command::Help,
            ExitCommand::Start => Command::Start,
            ExitCommand::Mc => Command::Mc,
        }
    }
}

impl StartCommand {
    pub open spec fn command(self) -> Command {
        match self {
            StartCommand::Help => Command::Help,
            StartCommand::Cancel => Command::Cancel,
        }
    }
}

impl RegisterCommand {
    pub open spec fn command(self) -> Command {
        match self {
            RegisterCommand::Help => Command::Help,
            RegisterCommand::Mc => Command::Mc,
            RegisterCommand::Balance => Command::Balance,
        }
    }
}

/// One of the four command lists: the one the bot shows in Telegram's menu,
/// or whose descriptions it sends for `/help`.
#[derive(Clone, Copy, Debug, PartialEq, Eq, Structural)]
pub enum CommandMenu {
    /// `Command`: every command.
    All,
    /// `ExitCommand`.
    Exit,
    /// `StartCommand`.
    Start,
    /// `RegisterCommand`.
    Register,
}

/// The commands of a menu, in the order in which they are declared.
pub open spec fn menu_commands(m: CommandMenu) -> Seq<Command> {
    match m {
        CommandMenu::All => seq![Command::Help, Command::Start, Command::Mc, Command::Balance, Command::Cancel],
        CommandMenu::Exit => seq![
            ExitCommand::Help.command(),
            ExitCommand::Start.command(),
            ExitCommand::Mc.command(),
        ],
        CommandMenu::Start => seq![StartCommand::Help.command(), StartCommand::Cancel.command()],
        CommandMenu::Register => seq![
            RegisterCommand::Help.command(),
            RegisterCommand::Mc.command(),
            RegisterCommand::Balance.command(),
        ],
    }
}

/// The menu that the bot installs for a chat that enters `s`.
pub open spec fn menu_for_state(s: State) -> CommandMenu {
    match s {
        State::Exit => CommandMenu::Exit,
        State::Register => CommandMenu::Register,
        _ => CommandMenu::Start,
    }
}

/// The menu whose descriptions `/help` sends, given the state stored for the
/// chat (`None` when none was ever stored).
pub open spec fn help_menu_for(stored: Option<State>) -> CommandMenu {
    match stored {
        None => CommandMenu::All,
        Some(State::Exit) => CommandMenu::Exit,
        Some(State::Register) => CommandMenu::Register,
        Some(_) => CommandMenu::Start,
    }
}

/// Chooses the command list that the bot installs for a chat in `state`.
pub fn commands_menu(state: &State) -> (m: CommandMenu)
    ensures
        m == menu_for_state(*state),
{
    match state {
        State::Exit => CommandMenu::Exit,
        State::Register => CommandMenu::Register,
        _ => CommandMenu::Start,
    }
}

/// Chooses the command list whose descriptions answer `/help`.
pub fn help_menu(stored: &Option<State>) -> (m: CommandMenu)
    ensures
        m == help_menu_for(*stored),
{
    match stored {
        None => CommandMenu::All,
        Some(State::Exit) => CommandMenu::Exit,
        Some(State::Register) => CommandMenu::Register,
        Some(_) => CommandMenu::Start,
    }
}

} // verus!
