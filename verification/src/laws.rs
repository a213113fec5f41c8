use vstd::prelude::*;

use crate::decimal::{decimal_int, decimal_nat, digit_char};
use crate::endpoints::notification_buttons_spec;
use crate::json::{JsonValue, first_pair_field, member};
use crate::routing::{Endpoint, Incoming, route_spec};
use crate::state::{Command, State, help_menu_for, menu_commands, menu_for_state};
use crate::starknet::be_value;

verus! {

/// The handler named after a command.
pub open spec fn command_handler(c: Command) -> Endpoint {
    match c {
        Command::Help => Endpoint::Help,
        Command::Start => Endpoint::Start,
        Command::Mc => Endpoint::Mc,
        Command::Balance => Endpoint::Balance,
        Command::Cancel => Endpoint::Cancel,
    }
}

/// Every message gets an answer, whatever the state of the chat and whatever
/// the message says: the last branch of the dispatcher takes what the others
/// leave.
pub proof fn message_always_handled(s: State, c: Option<Command>)
    ensures
        route_spec(s, Incoming::Message { command: c }) != Endpoint::Unhandled,
{
}

/// `/cancel` works in every state.
pub proof fn cancel_always_available(s: State)
    ensures
        route_spec(s, Incoming::Message { command: Some(Command::Cancel) }) == Endpoint::Cancel,
{
}

/// In the states that have a command menu of their own (`Start`, `Register`
/// and `Exit`), every command that the menu installed on entering the state
/// advertises reaches the handler of that command.
pub proof fn menu_commands_are_accepted(s: State, i: int)
    requires
        s is Start || s is Register || s is Exit,
        0 <= i < menu_commands(menu_for_state(s)).len(),
    ensures
        route_spec(s, Incoming::Message { command: Some(menu_commands(menu_for_state(s))[i]) })
            == command_handler(menu_commands(menu_for_state(s))[i]),
{
}

/// A button press is handled only while the bot waits for the answer to its
/// notification keyboard, and the handler gets what the dialogue stored.
pub proof fn callback_only_while_awaiting_choice(s: State)
    ensures
        (route_spec(s, Incoming::CallbackQuery) != Endpoint::Unhandled) <==> s is EnableNotification,
        s matches State::EnableNotification { addr, user_id, message_id } ==> route_spec(
            s,
            Incoming::CallbackQuery,
        ) == (Endpoint::EnableNotification { addr, user_id, message_id }),
{
}

/// A registered user is never taken back into the registration: no message
/// reaches `/start` or the address handler.
pub proof fn registered_user_stays_registered(c: Option<Command>)
    ensures
        route_spec(State::Register, Incoming::Message { command: c }) != Endpoint::Start,
        route_spec(State::Register, Incoming::Message { command: c }) != Endpoint::ReceiveAddr,
{
}

/// Of the two keyboard buttons, "Yes" turns notifications on and "No" leaves
/// them off (`notification_choice` holds exactly for the text "Yes").
pub proof fn yes_enables_no_disables()
    ensures
        notification_buttons_spec()[0] == "Yes"@,
        notification_buttons_spec()[1] != "Yes"@,
{
    reveal_strlit("Yes");
    reveal_strlit("No");
    assert(notification_buttons_spec()[1][0] != "Yes"@[0]);
}

/// Only a chat that waits for an address hands messages to the address
/// handler, and there every message but `/cancel` goes to it; in every
/// other state a plain message goes to `InvalidState`.
pub proof fn address_handler_only_while_awaiting_address(s: State, c: Option<Command>)
    ensures
        (route_spec(s, Incoming::Message { command: c }) == Endpoint::ReceiveAddr)
            <==> (s is ReceiveAddr && c != Some(Command::Cancel)),
        !(s is ReceiveAddr) ==> route_spec(s, Incoming::Message { command: None }) == Endpoint::InvalidState,
{
}

/// `/balance` reaches the balance handler only for a registered user, and
/// nothing else reaches it.
pub proof fn balance_only_for_registered(s: State, c: Option<Command>)
    ensures
        (route_spec(s, Incoming::Message { command: c }) == Endpoint::Balance)
            <==> (s is Register && c == Some(Command::Balance)),
{
}

/// `/start` reaches its handler only before a registration began or after
/// a cancelled one.
pub proof fn start_only_from_start_or_exit(s: State, c: Option<Command>)
    ensures
        (route_spec(s, Incoming::Message { command: c }) == Endpoint::Start)
            <==> ((s is Start || s is Exit) && c == Some(Command::Start)),
{
}

/// `/help` and `/mc` reach their handlers exactly in the states that have a
/// menu of their own.
pub proof fn help_and_mc_outside_registration_steps(s: State, c: Option<Command>)
    ensures
        (route_spec(s, Incoming::Message { command: c }) == Endpoint::Help)
            <==> ((s is Start || s is Register || s is Exit) && c == Some(Command::Help)),
        (route_spec(s, Incoming::Message { command: c }) == Endpoint::Mc)
            <==> ((s is Start || s is Register || s is Exit) && c == Some(Command::Mc)),
{
}

/// A message reaches `/cancel`'s handler exactly when it is `/cancel`, and
/// never reaches the keyboard handler.
pub proof fn cancel_exactly_for_cancel(s: State, c: Option<Command>)
    ensures
        (route_spec(s, Incoming::Message { command: c }) == Endpoint::Cancel) <==> c == Some(Command::Cancel),
        !(route_spec(s, Incoming::Message { command: c }) is EnableNotification),
{
}

/// An object member is found whatever the members before it hold: the value
/// of the first member named `key`, and none when no member has that name.
pub proof fn member_finds_first_with_key(entries: Seq<(String, JsonValue)>, key: Seq<char>, j: int)
    requires
        0 <= j < entries.len(),
        entries[j].0@ == key,
        forall|i: int| 0 <= i < j ==> entries[i].0@ != key,
    ensures
        member(entries, key) == Some(entries[j].1),
    decreases j,
{
    if j > 0 {
        let rest = entries.drop_first();
        assert forall|i: int| 0 <= i < j - 1 implies rest[i].0@ != key by {
            assert(rest[i] == entries[i + 1]);
        }
        member_finds_first_with_key(rest, key, j - 1);
    }
}

/// A name that no member has is not found.
pub proof fn member_absent(entries: Seq<(String, JsonValue)>, key: Seq<char>)
    requires
        forall|i: int| 0 <= i < entries.len() ==> entries[i].0@ != key,
    ensures
        member(entries, key) is None,
    decreases entries.len(),
{
    if entries.len() > 0 {
        let rest = entries.drop_first();
        assert forall|i: int| 0 <= i < rest.len() implies rest[i].0@ != key by {
            assert(rest[i] == entries[i + 1]);
        }
        member_absent(rest, key);
    }
}

/// `json["pairs"][0][key]` is the member `key` of the first element of the
/// array `pairs`, wherever these members stand among the others.
pub proof fn first_pair_field_lookup(
    top: Seq<(String, JsonValue)>,
    p: int,
    items: Seq<JsonValue>,
    fields: Seq<(String, JsonValue)>,
    key: Seq<char>,
    k: int,
)
    requires
        0 <= p < top.len(),
        top[p].0@ == "pairs"@,
        forall|i: int| 0 <= i < p ==> top[i].0@ != "pairs"@,
        top[p].1 matches JsonValue::Array(a) && a@ == items,
        items.len() > 0,
        items[0] matches JsonValue::Object(f) && f@ == fields,
        0 <= k < fields.len(),
        fields[k].0@ == key,
        forall|i: int| 0 <= i < k ==> fields[i].0@ != key,
    ensures
        forall|v: JsonValue| v matches JsonValue::Object(t) && t@ == top ==> first_pair_field(v, key) == fields[k].1,
{
    member_finds_first_with_key(top, "pairs"@, p);
    member_finds_first_with_key(fields, key, k);
}

/// The value of a string of decimal digits, most significant first.
pub open spec fn digits_value(s: Seq<char>) -> int
    decreases s.len(),
{
    if s.len() == 0 {
        0
    } else {
        digits_value(s.drop_last()) * 10 + (s.last() as int - '0' as int)
    }
}

proof fn digit_char_value(d: nat)
    requires
        d < 10,
    ensures
        digit_char(d) as int - '0' as int == d,
        '0' <= digit_char(d) <= '9',
        d > 0 ==> digit_char(d) != '0',
{
    assert('0' as int == 48 && '9' as int == 57 && '1' as int == 49 && '2' as int == 50 && '3' as int == 51
        && '4' as int == 52 && '5' as int == 53 && '6' as int == 54 && '7' as int == 55 && '8' as int == 56);
}

/// The decimal text of a natural number is made of digits, starts with a
/// digit other than '0' unless the number is 0, and reads back as the number.
pub proof fn decimal_nat_reads_back(n: nat)
    ensures
        decimal_nat(n).len() >= 1,
        forall|i: int| 0 <= i < decimal_nat(n).len() ==> '0' <= #[trigger] decimal_nat(n)[i] <= '9',
        n > 0 ==> decimal_nat(n)[0] != '0',
        digits_value(decimal_nat(n)) == n,
    decreases n,
{
    digit_char_value(n % 10);
    if n < 10 {
        assert(n % 10 == n);
        assert(digits_value(decimal_nat(n)) == digits_value(decimal_nat(n).drop_last()) * 10 + (digit_char(n) as int - '0' as int));
        assert(decimal_nat(n).drop_last() =~= Seq::<char>::empty());
    } else {
        decimal_nat_reads_back(n / 10);
        let s = decimal_nat(n);
        assert(s.drop_last() =~= decimal_nat(n / 10));
        assert(s[0] == decimal_nat(n / 10)[0]);
    }
}

/// The decimal text of an integer reads back as the integer: the digits
/// give its magnitude, and a '-' comes first exactly when it is negative.
pub proof fn decimal_int_reads_back(i: int)
    ensures
        i >= 0 ==> digits_value(decimal_int(i)) == i && decimal_int(i)[0] != '-',
        i < 0 ==> decimal_int(i)[0] == '-' && digits_value(decimal_int(i).drop_first()) == -i,
        i < 0 ==> decimal_int(i).len() >= 2,
{
    if i >= 0 {
        decimal_nat_reads_back(i as nat);
    } else {
        decimal_nat_reads_back((-i) as nat);
        assert(decimal_int(i).drop_first() =~= decimal_nat((-i) as nat));
    }
}

/// For a registered user and after a cancelled dialogue, the installed menu
/// lists exactly the commands the state takes, `/cancel` aside.
pub proof fn menus_list_the_accepted_commands(s: State, c: Command)
    requires
        s is Register || s is Exit,
    ensures
        menu_commands(menu_for_state(s)).contains(c) <==> (c != Command::Cancel
            && route_spec(s, Incoming::Message { command: Some(c) }) == command_handler(c)),
{
    let m = menu_commands(menu_for_state(s));
    if route_spec(s, Incoming::Message { command: Some(c) }) == command_handler(c) && c != Command::Cancel {
        if s is Register {
            if c == Command::Help { assert(m[0] == c); }
            if c == Command::Mc { assert(m[1] == c); }
            if c == Command::Balance { assert(m[2] == c); }
        } else {
            if c == Command::Help { assert(m[0] == c); }
            if c == Command::Start { assert(m[1] == c); }
            if c == Command::Mc { assert(m[2] == c); }
        }
    }
}

/// `/help` describes the command list that the chat's state installs, and,
/// for a chat with no stored state, every command.
pub proof fn help_describes_the_installed_menu(s: State, c: Command)
    ensures
        help_menu_for(Some(s)) == menu_for_state(s),
        menu_commands(help_menu_for(None)).contains(c),
{
    let m = menu_commands(help_menu_for(None));
    match c {
        Command::Help => assert(m[0] == c),
        Command::Start => assert(m[1] == c),
        Command::Mc => assert(m[2] == c),
        Command::Balance => assert(m[3] == c),
        Command::Cancel => assert(m[4] == c),
    }
}

/// Big-endian bytes: a prefix counts 256 times per byte that follows it.
pub proof fn be_value_concat(a: Seq<u8>, b: Seq<u8>)
    ensures
        be_value(a + b) == be_value(a) * vstd::arithmetic::power::pow(256, b.len()) + be_value(b),
    decreases b.len(),
{
    vstd::arithmetic::power::lemma_pow0(256);
    if b.len() == 0 {
        assert(a + b =~= a);
    } else {
        let b0 = b.drop_last();
        be_value_concat(a, b0);
        assert((a + b).drop_last() =~= a + b0);
        vstd::arithmetic::power::lemma_pow_adds(256, b0.len(), 1);
        vstd::arithmetic::power::lemma_pow1(256);
        let p = vstd::arithmetic::power::pow(256, b0.len());
        assert((be_value(a) * p + be_value(b0)) * 256 + b.last() == be_value(a) * (p * 256) + (be_value(b0) * 256 + b.last()))
            by (nonlinear_arith);
    }
}

/// One token is 10^18 of the smallest units.
pub proof fn token_unit_is_ten_to_the_eighteen()
    ensures
        crate::starknet::token_unit() == vstd::arithmetic::power::pow(10, 18),
{
    reveal_with_fuel(vstd::arithmetic::power::pow, 19);
}

} // verus!
