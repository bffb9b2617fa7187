# committed_fee

Replays the transactions of a Starknet block with the fees that were committed for them.

Each transaction is executed normally first. The committed receipt then says what was in fact
charged: for a transaction that an account pays for, the one `Transfer` event by which the fee token
moved the fee from the sender to the sequencer; otherwise the receipt's fee. Where execution
calculated another charge, the trace of the fee transfer and the balances of the sender and of the
sequencer are reconciled with the committed charge before the next transaction is executed. Once
that is done, the execution's receipt shows the committed charge and the committed gas.

`src/` is the library, verified with Verus:

- `felt`: field elements, contract addresses, and the calls into the Starknet crates;
- `text`: the numbers in error reasons;
- `setting`: the setting that turns the replay on;
- `receipt`: committed receipts and the charge that their events record;
- `trace`, `trace_laws`: the trace of a fee transfer and the replacement of the fee in it;
- `balance`, `balance_laws`: balances of 256 bits and their reconciliation;
- `replay`, `replay_laws`, `block_laws`: the replay of a block.

A replay performs no execution and touches no state itself: it asks for what it needs done
(`request`) and is told what came of it (`resume`). `app/` answers those requests with a
transaction executor.
