# redactor

The core of a text redaction service, verified with Verus.

- `src/` is the verified library: the checks of a model's configuration
  against requested entity types (`model_config`), the protocol that updates
  the redaction settings by fetching a model (`settings`), the admission of
  redaction requests and the service-state update (`redact`), the listening
  address and cache directory settings (`config`), and string predicates
  (`text`).
- `app/` is the HTTP service around it: environment variables, the model hub
  client, JSON (de)serialisation, locks, streaming, the actix-web routes, and
  the redaction itself, which needs a model's floating-point inference.
- `tests/` exercises the library on concrete values.
