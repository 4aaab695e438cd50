# srvcs-crossproduct

The 3D cross-product orchestrator of the srvcs.cloud distributed standard
library, with its decision logic verified in Verus.

- `src/api.rs`: service identity (`index`), dependency endpoints (`Deps`),
  the responses that end a request and their statuses, and `ask`, which
  classifies what a dependency call came back with.
- `src/evaluation.rs`: the evaluation of `a × b` as a state machine:
  `evaluate` validates the vectors and names the first call, `advance`
  takes each call's outcome and names the next call or the response.
- `src/laws.rs`: what holds of whole runs: the result is the composed cross
  product, at most nine calls are made, failures end the request at once,
  rejections are forwarded unchanged, the inputs are echoed, and the
  formula is anticommutative and zero on parallel vectors.
- `src/apidoc.rs`: the documented routes and statuses, and the proof that
  every response of `POST /` has a documented status.
- `app/`: the axum server, the HTTP client and the JSON forms; it runs the
  evaluation's loop, performing each call the library asks for.
