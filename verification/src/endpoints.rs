use vstd::prelude::*;

use crate::starknet::{ContractCall, felt_hex_accepted, is_public_key_call, public_key_call};
use crate::state::{CommandMenu, State, menu_for_state};

verus! {

/// What a handler does once it has what it needs: send `reply`, move the
/// dialogue to `next_state`, and install the command list `menu`.
#[derive(Clone, Debug, PartialEq, Eq)]
pub struct Plan {
    pub reply: String,
    pub next_state: State,
    pub menu: CommandMenu,
}

/// The handler of `/start`, once the bot knows whether the sender is already
/// in its user table. Either way it installs the menu of the `Start` state.
pub fn start_plan(already_registered: bool) -> (p: Plan)
    ensures
        already_registered ==> p.reply@ == "Your are already register"@ && p.next_state == State::Register,
        !already_registered ==> p.reply@ == "Let's start! What's your address?"@
            && p.next_state == State::ReceiveAddr,
        p.menu == menu_for_state(State::Start),
{
    if already_registered {
        Plan {
            reply: String::from_str("Your are already register"),
            next_state: State::Register,
            menu: CommandMenu::Start,
        }
    } else {
        Plan {
            reply: String::from_str("Let's start! What's your address?"),
            next_state: State::ReceiveAddr,
            menu: CommandMenu::Start,
        }
    }
}

/// The handler of `/cancel`: the dialogue ends in `Exit`.
pub fn cancel_plan() -> (p: Plan)
    ensures
        p.reply@ == "Cancelling the dialogue."@,
        p.next_state == State::Exit,
        p.menu == menu_for_state(State::Exit),
{
    Plan {
        reply: String::from_str("Cancelling the dialogue."),
        next_state: State::Exit,
        menu: CommandMenu::Exit,
    }
}

/// The reply to a message that no handler of the current state takes.
pub fn invalid_state_reply() -> (s: String)
    ensures
        s@ == "Unable to handle the message. Type /help to see the usage."@,
{
    String::from_str("Unable to handle the message. Type /help to see the usage.")
}

/// The reply to an address that is not accepted.
pub open spec fn invalid_address_text() -> Seq<char> {
    "This address is invalid. Resend a valid address."@
}

/// What the address handler does next.
#[derive(Clone, Debug, PartialEq, Eq)]
pub enum AddressStep {
    /// Answer with this text; the dialogue stays where it is.
    Reply(String),
    /// Ask the chain whether `addr` is an account, with `call`.
    CheckOnChain { addr: String, call: ContractCall },
    /// Send `prompt` with one keyboard button per entry of `buttons` (the
    /// text of a button is also its callback data).
    AskNotification { addr: String, prompt: String, buttons: Vec<String> },
}

/// The address handler, on the text of the message (`None` for a message
/// without text).
pub fn receive_addr_step(text: Option<String>) -> (r: AddressStep)
    ensures
        text is None ==> (r matches AddressStep::Reply(m) && m@ == "Please, send me your addr."@),
        text matches Some(t) ==> if felt_hex_accepted(t@) {
            r matches AddressStep::CheckOnChain { addr, call } && addr == t && is_public_key_call(call, t@)
        } else {
            r matches AddressStep::Reply(m) && m@ == invalid_address_text()
        },
{
    match text {
        None => AddressStep::Reply(String::from_str("Please, send me your addr.")),
        Some(t) => match public_key_call(t.as_str()) {
            Some(call) => AddressStep::CheckOnChain { addr: t, call },
            None => AddressStep::Reply(String::from_str("This address is invalid. Resend a valid address.")),
        },
    }
}

/// The texts of the two buttons of the notification keyboard.
pub open spec fn notification_buttons_spec() -> Seq<Seq<char>> {
    seq!["Yes"@, "No"@]
}

/// The buttons of the notification keyboard: "Yes" then "No".
pub fn notification_buttons() -> (b: Vec<String>)
    ensures
        b@.len() == 2,
        b@[0]@ == notification_buttons_spec()[0],
        b@[1]@ == notification_buttons_spec()[1],
{
    let mut b: Vec<String> = Vec::new();
    b.push(String::from_str("Yes"));
    b.push(String::from_str("No"));
    b
}

/// The address handler, once the chain has answered whether `addr` is an
/// account: ask about notifications, or refuse the address.
pub fn receive_addr_checked(addr: String, is_account: bool) -> (r: AddressStep)
    ensures
        is_account ==> (r matches AddressStep::AskNotification { addr: a, prompt, buttons } && a == addr
            && prompt@ == "Do you want enable notification ?"@
            && buttons@.len() == 2
            && buttons@[0]@ == notification_buttons_spec()[0]
            && buttons@[1]@ == notification_buttons_spec()[1]),
        !is_account ==> (r matches AddressStep::Reply(m) && m@ == invalid_address_text()),
{
    if is_account {
        AddressStep::AskNotification {
            addr,
            prompt: String::from_str("Do you want enable notification ?"),
            buttons: notification_buttons(),
        }
    } else {
        AddressStep::Reply(String::from_str("This address is invalid. Resend a valid address."))
    }
}

/// A Telegram user id as the bot stores it: the `u64` read as an `i64`, so
/// that ids above `i64::MAX` wrap around to negative numbers.
pub fn user_id_as_i64(id: u64) -> (r: i64)
    ensures
        r as int == if id <= i64::MAX { id as int } else { id as int - 0x1_0000_0000_0000_0000 },
{
    if id <= 0x7fff_ffff_ffff_ffff {
        id as i64
    } else {
        let above: u64 = id - 0x8000_0000_0000_0000;
        (above as i64) + i64::MIN
    }
}

/// The state after the notification keyboard was sent as message
/// `message_id`, in reply to an accepted address from the user `sender`.
pub fn awaiting_choice(addr: String, sender: u64, message_id: i32) -> (s: State)
    ensures
        s matches State::EnableNotification { addr: a, user_id, message_id: m }
            && a == addr && m == message_id
            && user_id as int == if sender <= i64::MAX { sender as int } else { sender as int - 0x1_0000_0000_0000_0000 },
{
    State::EnableNotification { addr, user_id: user_id_as_i64(sender), message_id }
}

/// Whether the pressed button asks for notifications.
pub fn notification_choice(data: &String) -> (b: bool)
    ensures
        b == (data@ == "Yes"@),
{
    let yes = String::from_str("Yes");
    *data == yes
}

/// What the answer to the notification keyboard leads to: remove the
/// keyboard message, store the user, reply, and move to `Register`.
#[derive(Clone, Debug, PartialEq, Eq)]
pub struct Registration {
    pub delete_message_id: i32,
    pub addr: String,
    pub user_id: i64,
    pub notification: bool,
    pub plan: Plan,
}

/// The handler of a press on the notification keyboard, with what the
/// dialogue stored and the button's data (`None` when the query has none,
/// in which case the bot does nothing).
pub fn enable_notification_step(addr: String, user_id: i64, message_id: i32, data: Option<String>) -> (r: Option<Registration>)
    ensures
        r is Some <==> data is Some,
        r matches Some(g) ==> {
            &&& g.delete_message_id == message_id
            &&& g.addr == addr
            &&& g.user_id == user_id
            &&& g.notification == (data.unwrap()@ == "Yes"@)
            &&& g.plan.reply@ == "Your are now register!"@
            &&& g.plan.next_state == State::Register
            &&& g.plan.menu == menu_for_state(State::Register)
        },
{
    match data {
        Some(d) => {
            let notification = notification_choice(&d);
            Some(Registration {
                delete_message_id: message_id,
                addr,
                user_id,
                notification,
                plan: Plan {
                    reply: String::from_str("Your are now register!"),
                    next_state: State::Register,
                    menu: CommandMenu::Register,
                },
            })
        },
        None => None,
    }
}

} // verus!
