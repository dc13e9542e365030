# dial_core

Control plane of a distributed inference system that shards the layers of a
language model over several machines: a master that owns the model, workers that
run layers for it.

`src/` holds what decides, verified with Verus:

- `spm/scheduler.rs`, `spm/engine.rs`: admission of requests and round-robin over
  the sessions in flight;
- `spm/client.rs`: handshakes, session lanes, the messages that batches of layers
  become, and the judging of answers;
- `spm/master.rs`: sessions that take turns in one model;
- `spm/generation.rs`: the token loop of a single request;
- `models/stage.rs`: the calls of a detached pipeline stage;
- `spm/context.rs`: the stages in which a node starts;
- `spm/profile.rs`, `spm/settings.rs`, `text.rs`: timing counters, settings, and
  the small texts in between;
- `spm/*_laws.rs`: what holds over more than one call, as proof functions.

`spm/channel.rs`, `spm/json.rs` and `quote` in `text.rs` declare what is taken on
trust of `tokio`, `serde_json` and the standard library; what goes through a channel
and what a clock shows is kept on record by the call itself. A model comes in through the
trait in `models/generator.rs`, which rules nothing out that a model might do.

`app/` is the runtime around the library: sockets, tasks, tensors and the command
line. It performs the actions that the library decides on and reports what came of
them. The wire format and the model implementations plug in there as traits.
