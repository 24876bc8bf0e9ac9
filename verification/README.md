# CDK Blink payment processor

A payment processor that connects a [Cashu Development Kit](https://github.com/cashubtc/cdk)
mint to Blink's Lightning infrastructure. It creates BOLT11 invoices, quotes payments with
probed routing fees, sends payments, checks their status, and streams incoming payments over
a WebSocket subscription that reconnects by itself.

## Layout

- `src/` is the library. It is written in Verus: functions state what they do in `requires`
  and `ensures`, and Verus proves it, apart from a few small functions around outside crates
  (see below). The library does no I/O; it says what to send, and what a reply means.
- `app/` is the program around it: HTTP, WebSocket, configuration files, certificates and
  the gRPC server of the `cdk-payment-processor` crate.
- `tests/` runs the library on concrete values.

## How the pieces fit

Operations that talk to Blink come in two parts. One part says what is to be sent, such as
`BlinkBackend::invoice_request`; the other takes what came back, such as
`BlinkBackend::incoming_payment_created`. What repeats or waits is a step function:

- `BlinkClient::check_invoice_status_with_retry` decides after each attempt whether to ask
  again, and after which delay (1 s, doubling, at most 30 s; three repetitions).
- `WSClient::stream_my_updates` takes an event of the connection and says what to do next.
- `BlinkBackend::wait_payment_event` and `PaymentProcessorService::wait_incoming_payment`
  relay paid updates until the receiver is gone.

Before it serves anything the program asks Blink for the account's wallets, and does not
start if Blink cannot be reached or rejects the API key
(`PaymentProcessorService::connectivity_checked`).

Calls into outside crates that only compute (`serde_json`, `hex`, `lightning-invoice`,
`reqwest::Url`, `cdk-common`) stand behind small functions whose contracts are stated and
not proved. Each says in its doc comment what it claims of the crate.

## Configuration

Built-in defaults are overridden by `config.toml`, which is overridden by environment
variables.

| `config.toml`        | variable          | default                        |
|----------------------|-------------------|--------------------------------|
| `backend.api_url`    | `BLINK_API_URL`   | `https://api.blink.sv/graphql` |
| `backend.api_key`    | `BLINK_API_KEY`   | none; required                 |
| `backend.wallet_id`  | `BLINK_WALLET_ID` | the account's default wallet   |
| `address`            | `SERVER_ADDRESS`  | `0.0.0.0`                      |
| `port`               | `SERVER_PORT`     | `50051`                        |
| `tls_enable`         | `TLS_ENABLE`      | `false`                        |
| `tls_cert_path`      | `TLS_CERT_PATH`   | `certs/server.crt`             |
| `tls_key_path`       | `TLS_KEY_PATH`    | `certs/server.key`             |
