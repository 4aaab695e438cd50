use serde_json::Value;
use srvcs_crossproduct::api::{index, CallOutcome, Dependency, Response};
use srvcs_crossproduct::evaluation::{evaluate, Next, Request};

// --- Computing mocks for the two primitives this service composes over.
//
// Each reads its operands and returns the *real* answer, so the
// orchestration is genuinely exercised rather than fed a canned value.

/// Reads a JSON operand as a number, as the mocks do (`0.0` if it is none).
fn number(v: &Value) -> f64 {
    v.as_f64().unwrap_or(0.0)
}

/// A JSON object with a single field.
fn object(key: &str, value: Value) -> Value {
    let mut m = serde_json::Map::new();
    m.insert(key.to_string(), value);
    Value::Object(m)
}

/// How a reachable dependency's answer reaches the library: its status,
/// the numeric `result` of its body if there is one, and the body.
fn answered(status: u16, body: Value) -> CallOutcome<f64, Value> {
    let result = body.get("result").and_then(Value::as_f64);
    CallOutcome::Answered { status, result, body }
}

/// A mock primitive, seen from the orchestrator.
enum Mock {
    /// Computes the real answer.
    Real,
    /// Nothing listens there.
    Dead,
    /// Always answers this status and body.
    Fixed(u16, Value),
}

fn multiply(mock: &Mock, x: &Value, y: &Value) -> CallOutcome<f64, Value> {
    match mock {
        Mock::Real => answered(200, object("result", Value::from(number(x) * number(y)))),
        Mock::Dead => CallOutcome::Unreachable,
        Mock::Fixed(s, b) => answered(*s, b.clone()),
    }
}

fn subtract(mock: &Mock, x: f64, y: f64) -> CallOutcome<f64, Value> {
    match mock {
        Mock::Real => answered(200, object("result", Value::from(x - y))),
        Mock::Dead => CallOutcome::Unreachable,
        Mock::Fixed(s, b) => answered(*s, b.clone()),
    }
}

struct Mocks {
    floatmultiply: Mock,
    floatsubtract: Mock,
}

fn all_real() -> Mocks {
    Mocks { floatmultiply: Mock::Real, floatsubtract: Mock::Real }
}

fn dead_deps() -> Mocks {
    Mocks { floatmultiply: Mock::Dead, floatsubtract: Mock::Dead }
}

/// Runs one request for `a × b` against the mocks: the status and the
/// response.
fn crossproduct(m: &Mocks, a: Vec<Value>, b: Vec<Value>) -> (u16, Response<Value, f64, Value>) {
    let mut next = evaluate(a, b);
    loop {
        match next {
            Next::Respond(response) => return (response.status(), response),
            Next::Call { state, request } => {
                let outcome = match request {
                    Request::Multiply { a_index, b_index } => {
                        multiply(&m.floatmultiply, &state.a()[a_index], &state.b()[b_index])
                    },
                    Request::Subtract { lhs, rhs } => subtract(&m.floatsubtract, lhs, rhs),
                };
                next = state.advance(outcome);
            },
        }
    }
}

fn v(xs: &[f64]) -> Vec<Value> {
    xs.iter().map(|x| Value::from(*x)).collect()
}

/// Extract the `result` array.
fn result_vec(response: &Response<Value, f64, Value>) -> Vec<f64> {
    match response {
        Response::Evaluated { result, .. } => result.clone(),
        _ => panic!("result is a JSON array"),
    }
}

/// Assert two f64 vectors match element-wise within 1e-9.
fn assert_vec_close(got: &[f64], expected: &[f64]) {
    assert_eq!(got.len(), expected.len(), "length mismatch: {got:?} vs {expected:?}");
    for (g, e) in got.iter().zip(expected.iter()) {
        assert!((g - e).abs() < 1e-9, "got {g}, expected {e} (full: {got:?})");
    }
}

fn dependency_name(response: &Response<Value, f64, Value>) -> &'static str {
    response.dependency().expect("dependency named").name()
}

// --- Identity. ---

#[test]
fn index_reports_identity() {
    let info = index();
    assert_eq!(info.service, "srvcs-crossproduct");
    assert_eq!(info.concern, "vectors: 3D cross product");
    assert_eq!(info.depends_on, vec!["srvcs-floatmultiply", "srvcs-floatsubtract"]);
}

// --- Correctness cases, against the computing mocks. ---

#[test]
fn cross_x_cross_y_is_z() {
    let (status, body) = crossproduct(&all_real(), v(&[1.0, 0.0, 0.0]), v(&[0.0, 1.0, 0.0]));
    assert_eq!(status, 200);
    assert_vec_close(&result_vec(&body), &[0.0, 0.0, 1.0]);
}

#[test]
fn cross_y_cross_z_is_x() {
    let (status, body) = crossproduct(&all_real(), v(&[0.0, 1.0, 0.0]), v(&[0.0, 0.0, 1.0]));
    assert_eq!(status, 200);
    assert_vec_close(&result_vec(&body), &[1.0, 0.0, 0.0]);
}

#[test]
fn cross_parallel_is_zero() {
    let (status, body) = crossproduct(&all_real(), v(&[2.0, 4.0, 6.0]), v(&[1.0, 2.0, 3.0]));
    assert_eq!(status, 200);
    assert_vec_close(&result_vec(&body), &[0.0, 0.0, 0.0]);
}

#[test]
fn cross_general_vectors() {
    // [3,-3,1] x [4,9,2] = (-3*2 - 1*9, 1*4 - 3*2, 3*9 - (-3)*4) = (-15, -2, 39)
    let (status, body) = crossproduct(&all_real(), v(&[3.0, -3.0, 1.0]), v(&[4.0, 9.0, 2.0]));
    assert_eq!(status, 200);
    assert_vec_close(&result_vec(&body), &[-15.0, -2.0, 39.0]);
}

#[test]
fn cross_fractional_vectors() {
    // [1.5, 0.0, -2.0] x [0.0, 3.0, 1.0]
    // cx = 0.0*1.0 - (-2.0)*3.0 = 6.0
    // cy = (-2.0)*0.0 - 1.5*1.0 = -1.5
    // cz = 1.5*3.0 - 0.0*0.0 = 4.5
    let (status, body) = crossproduct(&all_real(), v(&[1.5, 0.0, -2.0]), v(&[0.0, 3.0, 1.0]));
    assert_eq!(status, 200);
    assert_vec_close(&result_vec(&body), &[6.0, -1.5, 4.5]);
}

#[test]
fn cross_is_anticommutative() {
    let (s1, b1) = crossproduct(&all_real(), v(&[1.0, 0.0, 0.0]), v(&[0.0, 1.0, 0.0]));
    let (s2, b2) = crossproduct(&all_real(), v(&[0.0, 1.0, 0.0]), v(&[1.0, 0.0, 0.0]));
    assert_eq!(s1, 200);
    assert_eq!(s2, 200);
    assert_vec_close(&result_vec(&b1), &[0.0, 0.0, 1.0]);
    assert_vec_close(&result_vec(&b2), &[0.0, 0.0, -1.0]);
}

#[test]
fn echoes_input_vectors() {
    let (status, body) = crossproduct(&all_real(), v(&[1.0, 0.0, 0.0]), v(&[0.0, 1.0, 0.0]));
    assert_eq!(status, 200);
    match body {
        Response::Evaluated { a, b, .. } => {
            assert_eq!(a, v(&[1.0, 0.0, 0.0]));
            assert_eq!(b, v(&[0.0, 1.0, 0.0]));
        },
        _ => panic!("expected an evaluated response"),
    }
}

// --- Validation / error / edge cases. ---

#[test]
fn rejects_short_vector_a() {
    let (status, _) = crossproduct(&all_real(), v(&[1.0, 0.0]), v(&[0.0, 1.0, 0.0]));
    assert_eq!(status, 422);
}

#[test]
fn rejects_long_vector_b() {
    let (status, _) = crossproduct(&all_real(), v(&[1.0, 0.0, 0.0]), v(&[0.0, 1.0, 0.0, 5.0]));
    assert_eq!(status, 422);
}

#[test]
fn degraded_when_all_dependencies_dead() {
    // Every dependency is dead, so the first floatmultiply call degrades
    // the whole pipeline.
    let (status, body) = crossproduct(&dead_deps(), v(&[1.0, 0.0, 0.0]), v(&[0.0, 1.0, 0.0]));
    assert_eq!(status, 503);
    assert_eq!(dependency_name(&body), "srvcs-floatmultiply");
}

#[test]
fn degrades_when_floatsubtract_unreachable() {
    // floatmultiply is reachable so the pipeline reaches the floatsubtract
    // call, which then degrades.
    let mut deps = all_real();
    deps.floatsubtract = Mock::Dead;
    let (status, body) = crossproduct(&deps, v(&[1.0, 0.0, 0.0]), v(&[0.0, 1.0, 0.0]));
    assert_eq!(status, 503);
    assert_eq!(dependency_name(&body), "srvcs-floatsubtract");
}

#[test]
fn forwards_422_from_floatmultiply() {
    let mut deps = all_real();
    deps.floatmultiply = Mock::Fixed(422, object("error", Value::from("value is not a number")));
    let a = vec![Value::from("nope"), Value::from(0), Value::from(0)];
    let b = vec![Value::from(0), Value::from(1), Value::from(0)];
    let (status, body) = crossproduct(&deps, a, b);
    assert_eq!(status, 422);
    match body {
        Response::Forwarded { body, .. } => assert_eq!(body["error"], "value is not a number"),
        _ => panic!("expected a forwarded response"),
    }
}

#[test]
fn malformed_floatmultiply_result_is_500() {
    let mut deps = all_real();
    deps.floatmultiply = Mock::Fixed(200, object("result", Value::from("not-a-number")));
    let (status, body) = crossproduct(&deps, v(&[1.0, 0.0, 0.0]), v(&[0.0, 1.0, 0.0]));
    assert_eq!(status, 500);
    assert_eq!(dependency_name(&body), "srvcs-floatmultiply");
}

#[test]
fn malformed_floatsubtract_result_is_500() {
    let mut deps = all_real();
    deps.floatsubtract = Mock::Fixed(200, object("result", Value::from("not-a-number")));
    let (status, body) = crossproduct(&deps, v(&[1.0, 0.0, 0.0]), v(&[0.0, 1.0, 0.0]));
    assert_eq!(status, 500);
    assert_eq!(dependency_name(&body), "srvcs-floatsubtract");
}

#[test]
fn dependencies_are_named_as_reported() {
    assert_eq!(Dependency::FloatMultiply.name(), "srvcs-floatmultiply");
    assert_eq!(Dependency::FloatSubtract.name(), "srvcs-floatsubtract");
}
