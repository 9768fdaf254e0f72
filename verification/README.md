# inclusion_list

The inclusion list duties of an Ethereum validator client, and the gossip
verification of inclusion lists in a beacon node, with every decision verified
by Verus.

The work is asynchronous: it alternates between asking a service (the slot
clock, the duties cache, the key store, the beacon nodes) and deciding what to
ask next. The library in `src/` holds the decisions. Each task is an enum whose
variants name the one outside call that the task waits for; each variant's
`resume` takes that call's reply and returns the task's next state.

- `inclusion_list_service`: the service, whose methods start the tasks.
- `wait`, `produce`, `sign_and_publish`, `publish`, `tasks`: the tasks.
- `laws`: what holds of whole runs of them, whatever the replies.
- `inclusion_list_verification`: gossip verification.
- `types`, `chain_spec`, `duration`, `text`: values.

`app/` performs the calls, on tokio, against services given as traits.
