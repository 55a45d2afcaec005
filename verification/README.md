# Joystream runtime logic, verified

The rules of the Joystream storage, content and content directory runtime modules, written as
a Verus library: each operation is a function on a state value whose contract states its result
over a mathematical model of that state, and the properties that tie operations together are
proof functions.

- `storage_*`: bags, data objects, storage and distribution buckets, vouchers, the blacklist,
  dynamic bag creation and the integration methods (upload, delete, move); `storage_laws`
  holds the cross-operation properties.
- `content`, `content_ops`, `content_laws`: channels, videos, categories and curator groups.
- `content_directory*`: inbound reference counting of entities, schema and class checks,
  permissions updates.
- `weights`, `storage_weights`, `membership_weights`: transaction weight formulas.

Runtime plumbing (dispatch, origins, events, persistent storage and balance transfers) is left to
the caller: operations return the balance transfers they call for instead of performing them.
