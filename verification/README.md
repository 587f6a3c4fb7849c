# zos

The verified core of the ZeroOS robotics runtime: ROS 2-style nodes, publishers,
subscribers, services, clients, timers and an executor over a pluggable middleware.

- `src/` is the library, verified with Verus. It holds the naming rules (namespace
  normalization and name resolution, proved against a model of trimming by character
  class), the QoS profiles, the initialization state, the node and executor bookkeeping,
  the endpoint descriptions built by nodes, and the decisions that the asynchronous loops
  take (timer steps, receive steps, join verdicts, error reports). Endpoints are generic over
  the handles the host supplies, so no asynchronous or dynamically typed value enters it.
- `app/` is the asynchronous host: the Zenoh backend, the Tokio run loops, protobuf coding,
  and the floating-point simulation and visualizer helpers.
- `tests/` exercises the library, including differential tests against the standard
  library's string operations.
