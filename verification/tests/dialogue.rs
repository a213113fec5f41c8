use bot_telegram::endpoints::{
    awaiting_choice, cancel_plan, enable_notification_step, invalid_state_reply, notification_buttons,
    notification_choice, receive_addr_checked, receive_addr_step, start_plan, user_id_as_i64, AddressStep,
};
use bot_telegram::routing::{route, Endpoint, Incoming};
use bot_telegram::starknet::EntryPoint;
use bot_telegram::state::{commands_menu, help_menu, Command, CommandMenu, State};

fn msg(c: Option<Command>) -> Incoming {
    Incoming::Message { command: c }
}

fn awaiting() -> State {
    State::EnableNotification { addr: "0x1".to_string(), user_id: 7, message_id: 42 }
}

#[test]
fn default_state_is_start() {
    assert_eq!(State::default(), State::Start);
}

#[test]
fn start_state_routes() {
    let s = State::Start;
    assert_eq!(route(&s, &msg(Some(Command::Help))), Endpoint::Help);
    assert_eq!(route(&s, &msg(Some(Command::Start))), Endpoint::Start);
    assert_eq!(route(&s, &msg(Some(Command::Mc))), Endpoint::Mc);
    assert_eq!(route(&s, &msg(Some(Command::Balance))), Endpoint::InvalidState);
    assert_eq!(route(&s, &msg(Some(Command::Cancel))), Endpoint::Cancel);
    assert_eq!(route(&s, &msg(None)), Endpoint::InvalidState);
    assert_eq!(route(&s, &Incoming::CallbackQuery), Endpoint::Unhandled);
    assert_eq!(route(&s, &Incoming::Other), Endpoint::Unhandled);
}

#[test]
fn register_state_routes() {
    let s = State::Register;
    assert_eq!(route(&s, &msg(Some(Command::Help))), Endpoint::Help);
    assert_eq!(route(&s, &msg(Some(Command::Start))), Endpoint::InvalidState);
    assert_eq!(route(&s, &msg(Some(Command::Mc))), Endpoint::Mc);
    assert_eq!(route(&s, &msg(Some(Command::Balance))), Endpoint::Balance);
    assert_eq!(route(&s, &msg(Some(Command::Cancel))), Endpoint::Cancel);
    assert_eq!(route(&s, &msg(None)), Endpoint::InvalidState);
}

#[test]
fn exit_state_routes() {
    let s = State::Exit;
    assert_eq!(route(&s, &msg(Some(Command::Help))), Endpoint::Help);
    assert_eq!(route(&s, &msg(Some(Command::Start))), Endpoint::Start);
    assert_eq!(route(&s, &msg(Some(Command::Mc))), Endpoint::Mc);
    assert_eq!(route(&s, &msg(Some(Command::Balance))), Endpoint::InvalidState);
    assert_eq!(route(&s, &msg(Some(Command::Cancel))), Endpoint::Cancel);
}

#[test]
fn receive_addr_state_takes_any_text_but_cancel() {
    let s = State::ReceiveAddr;
    assert_eq!(route(&s, &msg(None)), Endpoint::ReceiveAddr);
    assert_eq!(route(&s, &msg(Some(Command::Help))), Endpoint::ReceiveAddr);
    assert_eq!(route(&s, &msg(Some(Command::Balance))), Endpoint::ReceiveAddr);
    assert_eq!(route(&s, &msg(Some(Command::Cancel))), Endpoint::Cancel);
    assert_eq!(route(&s, &Incoming::CallbackQuery), Endpoint::Unhandled);
}

#[test]
fn awaiting_choice_routes() {
    let s = awaiting();
    assert_eq!(route(&s, &msg(None)), Endpoint::InvalidState);
    assert_eq!(route(&s, &msg(Some(Command::Help))), Endpoint::InvalidState);
    assert_eq!(route(&s, &msg(Some(Command::Cancel))), Endpoint::Cancel);
    assert_eq!(
        route(&s, &Incoming::CallbackQuery),
        Endpoint::EnableNotification { addr: "0x1".to_string(), user_id: 7, message_id: 42 }
    );
}

#[test]
fn cancel_always_available_example() {
    for s in [State::Start, State::ReceiveAddr, awaiting(), State::Register, State::Exit] {
        assert_eq!(route(&s, &msg(Some(Command::Cancel))), Endpoint::Cancel);
        assert_ne!(route(&s, &msg(None)), Endpoint::Unhandled);
    }
    let p = cancel_plan();
    assert_eq!(p.reply, "Cancelling the dialogue.");
    assert_eq!(p.next_state, State::Exit);
    assert_eq!(p.menu, CommandMenu::Exit);
}

#[test]
fn menus_follow_state() {
    assert_eq!(commands_menu(&State::Start), CommandMenu::Start);
    assert_eq!(commands_menu(&State::ReceiveAddr), CommandMenu::Start);
    assert_eq!(commands_menu(&awaiting()), CommandMenu::Start);
    assert_eq!(commands_menu(&State::Register), CommandMenu::Register);
    assert_eq!(commands_menu(&State::Exit), CommandMenu::Exit);
}

#[test]
fn help_menu_follows_stored_state() {
    assert_eq!(help_menu(&None), CommandMenu::All);
    assert_eq!(help_menu(&Some(State::Exit)), CommandMenu::Exit);
    assert_eq!(help_menu(&Some(State::Register)), CommandMenu::Register);
    assert_eq!(help_menu(&Some(State::Start)), CommandMenu::Start);
    assert_eq!(help_menu(&Some(State::ReceiveAddr)), CommandMenu::Start);
}

#[test]
fn start_plan_for_new_and_known_users() {
    let p = start_plan(false);
    assert_eq!(p.reply, "Let's start! What's your address?");
    assert_eq!(p.next_state, State::ReceiveAddr);
    assert_eq!(p.menu, CommandMenu::Start);
    let p = start_plan(true);
    assert_eq!(p.reply, "Your are already register");
    assert_eq!(p.next_state, State::Register);
    assert_eq!(p.menu, CommandMenu::Start);
}

#[test]
fn invalid_state_text() {
    assert_eq!(invalid_state_reply(), "Unable to handle the message. Type /help to see the usage.");
}

#[test]
fn address_step_without_text() {
    assert_eq!(receive_addr_step(None), AddressStep::Reply("Please, send me your addr.".to_string()));
}

#[test]
fn address_step_rejects_bad_hex() {
    let invalid = AddressStep::Reply("This address is invalid. Resend a valid address.".to_string());
    assert_eq!(receive_addr_step(Some("hello".to_string())), invalid);
    assert_eq!(receive_addr_step(Some("0x".to_string())), invalid);
    assert_eq!(receive_addr_step(Some("/help".to_string())), invalid);
}

#[test]
fn address_step_checks_on_chain() {
    match receive_addr_step(Some("0x0abc".to_string())) {
        AddressStep::CheckOnChain { addr, call } => {
            assert_eq!(addr, "0x0abc");
            assert_eq!(call.entry_point, EntryPoint::GetPublicKey);
            assert!(call.calldata.is_empty());
            let mut expected = [0u8; 32];
            expected[30] = 0x0a;
            expected[31] = 0xbc;
            assert_eq!(call.contract_address, expected);
        }
        other => panic!("unexpected step {:?}", other),
    }
}

#[test]
fn address_checked_on_chain() {
    assert_eq!(
        receive_addr_checked("0x1".to_string(), false),
        AddressStep::Reply("This address is invalid. Resend a valid address.".to_string())
    );
    assert_eq!(
        receive_addr_checked("0x1".to_string(), true),
        AddressStep::AskNotification {
            addr: "0x1".to_string(),
            prompt: "Do you want enable notification ?".to_string(),
            buttons: vec!["Yes".to_string(), "No".to_string()],
        }
    );
}

#[test]
fn user_ids_wrap_like_as_casts() {
    assert_eq!(user_id_as_i64(0), 0);
    assert_eq!(user_id_as_i64(123456789), 123456789);
    assert_eq!(user_id_as_i64(i64::MAX as u64), i64::MAX);
    assert_eq!(user_id_as_i64(1u64 << 63), i64::MIN);
    assert_eq!(user_id_as_i64(u64::MAX), -1);
    for id in [0u64, 5, 1 << 40, (1 << 63) + 17, u64::MAX - 3] {
        assert_eq!(user_id_as_i64(id), id as i64);
    }
}

#[test]
fn awaiting_choice_state() {
    assert_eq!(
        awaiting_choice("0x1".to_string(), 99, 5),
        State::EnableNotification { addr: "0x1".to_string(), user_id: 99, message_id: 5 }
    );
}

#[test]
fn yes_enables_no_disables_example() {
    let buttons = notification_buttons();
    assert_eq!(buttons, vec!["Yes".to_string(), "No".to_string()]);
    assert!(notification_choice(&buttons[0]));
    assert!(!notification_choice(&buttons[1]));
    assert!(!notification_choice(&"yes".to_string()));
    assert!(!notification_choice(&"".to_string()));
}

#[test]
fn enable_notification_registers() {
    assert_eq!(enable_notification_step("0x1".to_string(), 7, 42, None), None);
    let g = enable_notification_step("0x1".to_string(), 7, 42, Some("Yes".to_string())).unwrap();
    assert_eq!(g.delete_message_id, 42);
    assert_eq!(g.addr, "0x1");
    assert_eq!(g.user_id, 7);
    assert!(g.notification);
    assert_eq!(g.plan.reply, "Your are now register!");
    assert_eq!(g.plan.next_state, State::Register);
    assert_eq!(g.plan.menu, CommandMenu::Register);
    let g = enable_notification_step("0x1".to_string(), 7, 42, Some("No".to_string())).unwrap();
    assert!(!g.notification);
}

#[test]
fn registration_journey() {
    // a new user sends /start
    let s = State::default();
    assert_eq!(route(&s, &msg(Some(Command::Start))), Endpoint::Start);
    let p = start_plan(false);
    let s = p.next_state;
    assert_eq!(s, State::ReceiveAddr);
    // then an address, which the chain knows as an account
    assert_eq!(route(&s, &msg(None)), Endpoint::ReceiveAddr);
    let (addr, call) = match receive_addr_step(Some("0x5".to_string())) {
        AddressStep::CheckOnChain { addr, call } => (addr, call),
        other => panic!("unexpected step {:?}", other),
    };
    assert_eq!(call.entry_point, EntryPoint::GetPublicKey);
    let addr = match receive_addr_checked(addr, true) {
        AddressStep::AskNotification { addr, .. } => addr,
        other => panic!("unexpected step {:?}", other),
    };
    let s = awaiting_choice(addr, 1234, 77);
    // then presses "Yes"
    let (addr, user_id, message_id) = match route(&s, &Incoming::CallbackQuery) {
        Endpoint::EnableNotification { addr, user_id, message_id } => (addr, user_id, message_id),
        other => panic!("unexpected endpoint {:?}", other),
    };
    let g = enable_notification_step(addr, user_id, message_id, Some("Yes".to_string())).unwrap();
    assert_eq!(g.delete_message_id, 77);
    assert_eq!(g.addr, "0x5");
    assert_eq!(g.user_id, 1234);
    assert!(g.notification);
    let s = g.plan.next_state;
    assert_eq!(s, State::Register);
    // a registered user can ask for the balance but not start again
    assert_eq!(route(&s, &msg(Some(Command::Balance))), Endpoint::Balance);
    assert_eq!(route(&s, &msg(Some(Command::Start))), Endpoint::InvalidState);
}

#[test]
fn menu_commands_are_accepted_example() {
    let cases = [
        (State::Start, vec![Command::Help, Command::Cancel]),
        (State::Register, vec![Command::Help, Command::Mc, Command::Balance]),
        (State::Exit, vec![Command::Help, Command::Start, Command::Mc]),
    ];
    for (s, menu) in cases {
        for c in menu {
            let expected = match c {
                Command::Help => Endpoint::Help,
                Command::Start => Endpoint::Start,
                Command::Mc => Endpoint::Mc,
                Command::Balance => Endpoint::Balance,
                Command::Cancel => Endpoint::Cancel,
            };
            assert_eq!(route(&s, &msg(Some(c))), expected);
        }
    }
    // while the bot waits for an address, "/help" is read as an address
    assert_eq!(route(&State::ReceiveAddr, &msg(Some(Command::Help))), Endpoint::ReceiveAddr);
}
