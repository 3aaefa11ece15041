# rusty_vault

A client library for [HashiCorp Vault](https://www.vaultproject.io/), verified
with [Verus](https://github.com/verus-lang/verus).

## Layout

- `src/` is the verified library. It decides and computes, and does no input or
  output of its own.
- `app/` is the asynchronous client around it: it reads the environment and the
  file system, talks to the Vault server, opens the browser, and hands what
  came of it back to the library.
- `tests/` runs the library.

## What it does

- **Token resolution**: `VAULT_TOKEN`, then `~/.vault-token`, both validated
  against Vault before use. Where logins are allowed, a Kubernetes login follows
  if the process runs in a pod, and a login in the browser is the last resort.
  The token of a browser login is saved to `~/.vault-token`, with mode 600.
- **Kubernetes login**: with the role, the mount path and the service account's
  token that the environment names.
- **Browser login**: through a callback on port 8250.
- **Secret fetching**: secrets of the key-value store, version 2, as JSON values
  whose strings are kept in memory that is wiped, or as a flat map.

## Operations as machines

An operation that needs the outside world is a function from a stage and an
event to the next stage. A stage says what is to be done; the event says what
came of it:

```rust
let mut stage = ResolveStage::EnvToken;
loop {
    let event = match &stage {
        ResolveStage::EnvToken => ResolveEvent::EnvToken(std::env::var("VAULT_TOKEN").ok()),
        // ...
        ResolveStage::Finished(_) => break,
    };
    stage = client.resolve_token(oidc_callback, stage, event);
}
```

`src/laws.rs` states and proves what such a run ends with, whatever the outside
world answers.

## Configuration

| Environment variable      | Default                                               |
|---------------------------|-------------------------------------------------------|
| `VAULT_ADDR`              | `http://localhost:8200`                               |
| `VAULT_TOKEN`             | *(none)*                                              |
| `VAULT_K8S_ROLE`          | *(required for a Kubernetes login)*                   |
| `VAULT_K8S_AUTH_PATH`     | `kubernetes`                                          |
| `VAULT_K8S_SA_TOKEN_PATH` | `/var/run/secrets/kubernetes.io/serviceaccount/token` |
