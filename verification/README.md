# temporal_worker

The decision logic of a Temporal worker, verified with Verus.

- `src/history`: cuts a workflow's history into logical workflow tasks, by the legacy and by the
  second chunking algorithm, and pages the history in.
- `src/bridge`: lets a synchronous host drive the asynchronous worker core: result words, operation
  slots and registries, the queue of gRPC requests and their metadata, and the life of a worker.
- `src/interceptors`: chains of interceptors around the operations of a workflow, and their inputs.
- `src/runtime`: a running workflow: activations with their signals, updates and queries, the record of
  the calls that these make to the workflow, and the polling of routines.
- `src/pollers.rs`, `src/status.rs`, `src/text.rs`: small parts that the others share.

`app` holds what the library cannot: the calls that a host makes, futures and streams, trait objects,
and protobuf forms.

Contracts are stated over mathematical counterparts of the types. Laws that relate several calls are
the public proof functions whose names begin with `law_`. What is believed of `http`, `tonic` and the
standard library is in `src/bridge/headers.rs` and at the top of `src/bridge/state.rs`.
