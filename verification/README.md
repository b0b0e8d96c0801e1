# juno

A client for the Juno message bus, in two parts.

- `src/` is the verified library (Verus). It holds the message model
  (`messages`, `constants`, `error`), the bookkeeping of a module on the bus
  (`module_impl`: declared functions, hook listeners, pending requests, and
  the requests held back until the bus registers the module), a name-keyed
  map (`registry`), the choice of socket from a connection path (`address`), the fields that
  carry each message on the wire (`wire`),
  and the laws that relate these operations (`laws`). Every operation states
  its effect on an abstract `ModuleState`, and the laws are proved over it.
- `app/` is the asynchronous runtime around it: the TCP and Unix socket
  connections, the reading and writing of those fields as JSON, the locks, and the
  `JunoModule` API. Each incoming message and each outgoing request is put
  to the verified bookkeeping, and the runtime carries out what it decides.
