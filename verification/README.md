# im_store

The audit trail of the identity manager.

- `src/` is the verified library: the domain types (`types`), the errors
  (`error`), UUID text (`ids`), RFC 3339 instants (`time`), the stored form of an
  audit row with its encoding and decoding (`record`), the audit table's layout
  (`schema`) and the authorization interface (`authz`).
- `app/` holds the SQLite sink, the migrations and the queries, and the JSON
  forms of the domain values.
- `tests/` exercises the library on concrete values.
