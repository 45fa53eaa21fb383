# wasmcloud_provider

A verified library for wasmCloud capability providers, with a key-value provider on NATS
JetStream.

- `src/provider_sdk`: the context of a call, names of operations and subjects, and the traits of
  a provider.
- `src/rpc`: a provider's side of the host protocol, that is links, subscriptions, health checks,
  calls, shutdown, and the host's start-up data.
- `src/keyvalue`: the `wasmcloud:keyvalue` contract on a NATS key-value store.
- `src/lattice.rs`, `src/logging.rs`, `src/text.rs`: the values that these share.
- `app`: the program around the library, with NATS, the environment and serialization.

## Link settings of the key-value provider

| Property      | Description                                                                                            |
| :------------ | :----------------------------------------------------------------------------------------------------- |
| `URI`         | NATS connection uri's, one to a setting. If not specified, the default is `0.0.0.0:4222`               |
| `CLIENT_JWT`  | Optional JWT auth token. For JWT authentication, both `CLIENT_JWT` and `CLIENT_SEED` must be provided. |
| `CLIENT_SEED` | Private seed for JWT authentication.                                                                   |

List and set functionalities are not implemented at this time.
