# Responses API store

A store for responses of a language-model API and for the background jobs that produce them, kept
in Redis and served over gRPC. The library in `src/` holds the rules, written in Verus and proved
against their contracts; the program in `app/` performs the input and output around it.

## Library

- `config`: what the environment variables mean.
- `model`: stored responses, jobs, and what a response's status allows.
- `store`: keys, lifetimes and reads of responses, and how a background response changes its state.
- `transaction`: the optimistic transaction by which such a change is made, as a state machine.
- `queue`: the stream of jobs: what is sent to Redis and what its replies mean.
- `claim`: the claiming of jobs for a worker, as a state machine.
- `service`: the requests that the server answers.
- `client`: the requests that a client sends, and what it makes of the replies.
- `proto`, `convert`, `status`: the messages, their conversion, and the statuses of failed calls.
- `metrics`, `probe`, `capabilities`: queue metrics, the health probe, and Redis versions.
- `json`, `error`, `text`: JSON documents, errors, and text functions.

The state machines take what happened (`step`) and tell what is to be done next; the caller performs
it. What the library takes on trust of `serde_json`, `redis`, `uuid` and the standard library stands
in the doc comments of the functions that call them.

## Program

`app/main.rs` starts the server. With the argument `probe` it checks the health of a running server,
with `smoke` it takes a job through one.
