# snowflake-api

A client library for Snowflake's query API, verified with Verus.

- `src/` is the library: credentials, requests, the meaning of answers, and the decoding of
  Arrow results. Each function's contract says what it returns; the public proof functions
  whose names begin with `law_` state what holds across functions.
- `app/` is the asynchronous client around it. It talks to the service through the trait
  `Service`, reads the environment, and gives the errors their messages.
- `tests/` runs the library with the real crates behind it.

## What the library rests on

Arrow's arrays, schemas and IPC streams, regular expressions, Base64, JSON values and HTTP
clients come from their own crates. `src/arrow.rs` holds the calls into Arrow; the others
stand beside the code that needs them. Every such call is a function marked
`#[verifier::external_body]`, and its documentation says what is taken on trust.

## `TIMESTAMP_NTZ`

Snowflake sends timestamps without a time zone as structs of seconds and a fraction. They are
flattened to microsecond timestamps when a result is decoded. A fraction in a scale above 24
cannot be computed with in 64 bits: `flatten_snowflake_types` and `deserialize_arrow` rule it
out in their preconditions, and their `try_` counterparts return `None` for it.

## Malformed streams

On some malformed bytes the reader of Arrow's IPC format panics instead of returning an error.
The functions that read streams rule such bytes out in their preconditions (`readable`). Where
it returns an error, that error comes back. The contracts tie it to the reader that met it and
not to the bytes alone, because the text of some errors lists the metadata of a field in the
order of its hash map.
