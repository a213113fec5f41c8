# bot_telegram

A Telegram bot that follows a Starknet token: users register a Starknet
address, ask for their balance and for the token's market cap, and may
receive a notification when the market cap moves.

- `src/` is the verified library (Verus):
  - `state.rs`: the dialogue states, the command lists and which list a chat sees;
  - `routing.rs`: which handler takes an update, in each state;
  - `endpoints.rs`: what each handler does once it has its inputs;
  - `starknet.rs`: hex addresses as field elements, and the contract calls;
  - `balance.rs`: whole tokens from a raw ERC-20 balance, and the balance reply;
  - `decimal.rs`: decimal notation of integers;
  - `market.rs`: the market cap texts and the price service address;
  - `laws.rs`: properties of the dialogue as a whole.
- `app/` is the program: Telegram, the database, the chain and the price
  service, and the floating-point handling of prices and market caps.
- `tests/` runs the library on concrete values.
