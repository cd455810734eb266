# forward

Calls that are carried out where they belong. A proxy stands for a target; each of its methods says on
which server, and there on which thread, a call of it is to be made, and the call is carried there by
handles that the user supplies.

The library is written in Rust and verified with Verus: what a function does stands in its `requires`
and `ensures` clauses, and what holds of several of them together in the public proof functions whose
names begin with `law_`. Where other threads decide, as on a channel, the clauses say how the answer,
and what is left behind the lock, follow from what was found there, whatever that was.

| module         | what it holds                                                                    |
|----------------|----------------------------------------------------------------------------------|
| `bit`          | named bits of a word                                                             |
| `const_string` | strings of fixed length, the short ones held in place                            |
| `oneshot`      | a channel for one value, received by blocking or by polling                      |
| `proxy`        | proxies, the choice of places, and calls on their way                            |
| `registry`     | proxies by name                                                                  |
| `expansion`    | the `impl` block of a proxy, made of the text of the `impl` block of its target  |

## What is taken on trust

- `oneshot::sync`: locks, atomics, wakers and waiting, of `std` and `atomic_wait`. Nothing is claimed of
  what other threads do, nor of how long a receiver that blocks has to wait: it gives up when it has
  looked as often as a `u64` can count. The rules of the channel are the steps of
  `oneshot::state::State`, and `oneshot::laws` says what holds however these steps interleave.
- `const_string::text`: the text in UTF-8 bytes.
- `const_string::impls`: the hash of a text. What it leaves in the hasher is up to the hasher.
- `expansion::read`: what `syn` and `proc_macro2` read in a text. Each reading has a name, and the
  contracts of the grammar and of the expansion speak of these names.

## Around the library

`app/` holds what cannot be verified here: futures, formatting, files, and the registry of a process.
