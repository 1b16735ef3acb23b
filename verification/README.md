# trader

The decisions of a trader on short-lived up/down markets, proved with Verus.

- `src/` is the library. Signals, strategies and gates decide on an entry; a machine holds
  one position and decides on its exit; halts, the balance guard and the chat commands decide
  whether it may enter at all. Order sequences, replays of recorded days, logs and messages
  stand beside them.
- `tests/` runs the library on concrete values.
- `app/` is the program around it: files, feeds, orders, the chat bot.

## Numbers

Prices and amounts are `Num`: the bits of a 64-bit float. The library compares them itself.
Adding, rounding, reading and writing them is left to the caller, who hands over an `Arith`, a
`Reader` and a `Writer`; every contract says which operations are applied to which values, and
in which order.

## Orders

Nothing in the library talks to an exchange. An order is a sequence of steps: a function says
what to submit, the caller submits it and hands back the reply, and the next function says
what follows. `app/clob.rs` runs these steps against the exchange; `SimExecutionEngine` fills
orders without one.

## The live driver

`live::run` in `app/` drives one slot for each asset, duration and strategy. It is started with
a desk: the workers that turn events into actions, and the engine of a paper run.
