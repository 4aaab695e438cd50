use vstd::prelude::*;

verus! {

/// The name this service reports for itself.
pub const SERVICE: &'static str = "srvcs-crossproduct";

/// The single concern of this service.
pub const CONCERN: &'static str = "vectors: 3D cross product";

/// Name of the multiplication primitive this service composes over.
pub const FLOATMULTIPLY: &'static str = "srvcs-floatmultiply";

/// Name of the subtraction primitive this service composes over.
pub const FLOATSUBTRACT: &'static str = "srvcs-floatsubtract";

/// Service identity, as reported by `GET /`.
pub struct Info {
    pub service: &'static str,
    pub concern: &'static str,
    pub depends_on: Vec<&'static str>,
}

/// `GET /`: the service's identity, its concern and its dependencies, in the
/// order multiply, subtract.
pub fn index() -> (info: Info)
    ensures
        info.service@ == SERVICE@,
        info.concern@ == CONCERN@,
        info.depends_on@.len() == 2,
        info.depends_on@[0]@ == FLOATMULTIPLY@,
        info.depends_on@[1]@ == FLOATSUBTRACT@,
{
    let mut depends_on: Vec<&'static str> = Vec::new();
    depends_on.push(FLOATMULTIPLY);
    depends_on.push(FLOATSUBTRACT);
    Info { service: SERVICE, concern: CONCERN, depends_on }
}


/// One of the two float primitives this service composes over.
#[derive(Clone, Copy, Debug, PartialEq, Eq, Structural)]
pub enum Dependency {
    FloatMultiply,
    FloatSubtract,
}

impl Dependency {
    /// The service name of the dependency.
    pub open spec fn name_view(self) -> Seq<char> {
        match self {
            Dependency::FloatMultiply => FLOATMULTIPLY@,
            Dependency::FloatSubtract => FLOATSUBTRACT@,
        }
    }

    /// The service name of the dependency, as reported in error bodies.
    pub fn name(&self) -> (name: &'static str)
        ensures
            name@ == self.name_view(),
    {
        match self {
            Dependency::FloatMultiply => FLOATMULTIPLY,
            Dependency::FloatSubtract => FLOATSUBTRACT,
        }
    }
}

/// Dependency endpoints, injected as router state so tests can point them at
/// mock services.
#[derive(Clone)]
pub struct Deps {
    pub floatmultiply_url: String,
    pub floatsubtract_url: String,
}

impl Deps {
    /// The base URL at which `dependency` is called.
    pub fn url(&self, dependency: Dependency) -> (url: &String)
        ensures
            *url == match dependency {
                Dependency::FloatMultiply => self.floatmultiply_url,
                Dependency::FloatSubtract => self.floatsubtract_url,
            },
    {
        match dependency {
            Dependency::FloatMultiply => &self.floatmultiply_url,
            Dependency::FloatSubtract => &self.floatsubtract_url,
        }
    }
}

/// The response that ends a request to this service.
///
/// `V` is an input element (forwarded verbatim), `N` a number returned by a
/// dependency, `B` a dependency's response body.
pub enum Response<V, N, B> {
    /// `200 {"a": .., "b": .., "result": [cx, cy, cz]}`
    Evaluated { a: Vec<V>, b: Vec<V>, result: Vec<N> },
    /// `503 {"error": "dependency unavailable", "dependency": ..}`
    Degraded { dependency: Dependency },
    /// A dependency's rejection, forwarded with its own status and body.
    Forwarded { status: u16, body: B },
    /// `500 {"error": "dependency returned a malformed result", "dependency": ..}`
    Malformed { dependency: Dependency },
    /// `422 {"error": message}`: the request itself is invalid.
    Unprocessable { message: String },
}

/// The mathematical model of a [`Response`].
pub enum ResponseView<V, N, B> {
    Evaluated { a: Seq<V>, b: Seq<V>, result: Seq<N> },
    Degraded { dependency: Dependency },
    Forwarded { status: u16, body: B },
    Malformed { dependency: Dependency },
    Unprocessable { message: Seq<char> },
}

impl<V, N, B> View for Response<V, N, B> {
    type V = ResponseView<V, N, B>;

    open spec fn view(&self) -> ResponseView<V, N, B> {
        match self {
            Response::Evaluated { a, b, result } => ResponseView::Evaluated {
                a: a@,
                b: b@,
                result: result@,
            },
            Response::Degraded { dependency } => ResponseView::Degraded { dependency: *dependency },
            Response::Forwarded { status, body } => ResponseView::Forwarded {
                status: *status,
                body: *body,
            },
            Response::Malformed { dependency } => ResponseView::Malformed { dependency: *dependency },
            Response::Unprocessable { message } => ResponseView::Unprocessable { message: message@ },
        }
    }
}

/// The HTTP status a forwarded status turns into: itself where it is a
/// valid status code (100 to 999), `502 Bad Gateway` otherwise.
pub open spec fn forwarded_status(status: u16) -> u16 {
    if 100 <= status <= 999 {
        status
    } else {
        502
    }
}

/// The HTTP status of a response.
pub open spec fn status_of<V, N, B>(response: ResponseView<V, N, B>) -> u16 {
    match response {
        ResponseView::Evaluated { .. } => 200,
        ResponseView::Degraded { .. } => 503,
        ResponseView::Forwarded { status, .. } => forwarded_status(status),
        ResponseView::Malformed { .. } => 500,
        ResponseView::Unprocessable { .. } => 422,
    }
}

/// The `error` text of a response's body, where it has one of its own.
pub open spec fn error_of<V, N, B>(response: ResponseView<V, N, B>) -> Option<Seq<char>> {
    match response {
        ResponseView::Degraded { .. } => Some("dependency unavailable"@),
        ResponseView::Malformed { .. } => Some("dependency returned a malformed result"@),
        ResponseView::Unprocessable { message } => Some(message),
        _ => None,
    }
}

/// The dependency a response blames, where it blames one.
pub open spec fn dependency_of<V, N, B>(response: ResponseView<V, N, B>) -> Option<Dependency> {
    match response {
        ResponseView::Degraded { dependency } => Some(dependency),
        ResponseView::Malformed { dependency } => Some(dependency),
        _ => None,
    }
}

/// `http::StatusCode::from_u16` followed by `StatusCode::as_u16`: the code
/// itself when `from_u16` accepts it, which it does exactly for 100 to 999.
#[verifier::external_body]
fn valid_status_code(code: u16) -> (valid: Option<u16>)
    ensures
        valid == (if 100 <= code <= 999 { Some(code) } else { None::<u16> }),
{
    match axum::http::StatusCode::from_u16(code) {
        Ok(status) => Some(status.as_u16()),
        Err(_) => None,
    }
}

impl<V, N, B> Response<V, N, B> {
    /// The HTTP status of this response.
    pub fn status(&self) -> (status: u16)
        ensures
            status == status_of(self@),
    {
        match self {
            Response::Evaluated { .. } => 200,
            Response::Degraded { .. } => 503,
            Response::Forwarded { status, .. } => match valid_status_code(*status) {
                Some(code) => code,
                None => 502,
            },
            Response::Malformed { .. } => 500,
            Response::Unprocessable { .. } => 422,
        }
    }

    /// The `error` text of this response's body, where it has one of its own.
    pub fn error(&self) -> (error: Option<&str>)
        ensures
            error_of(self@) == match error {
                Some(text) => Some(text@),
                None => None::<Seq<char>>,
            },
    {
        match self {
            Response::Degraded { .. } => Some("dependency unavailable"),
            Response::Malformed { .. } => Some("dependency returned a malformed result"),
            Response::Unprocessable { message } => Some(message.as_str()),
            _ => None,
        }
    }

    /// The dependency this response blames, where it blames one.
    pub fn dependency(&self) -> (dependency: Option<Dependency>)
        ensures
            dependency == dependency_of(self@),
            dependency is Some <==> (self@ is Degraded || self@ is Malformed),
    {
        match self {
            Response::Degraded { dependency } => Some(*dependency),
            Response::Malformed { dependency } => Some(*dependency),
            _ => None,
        }
    }
}

/// `200`: the evaluated cross product, echoing both input vectors.
pub fn ok<V, N, B>(a: Vec<V>, b: Vec<V>, result: Vec<N>) -> (response: Response<V, N, B>)
    ensures
        response@ == (ResponseView::<V, N, B>::Evaluated { a: a@, b: b@, result: result@ }),
{
    Response::Evaluated { a, b, result }
}

/// `503`: `dependency` could not be used.
pub fn degraded<V, N, B>(dependency: Dependency) -> (response: Response<V, N, B>)
    ensures
        response@ == (ResponseView::<V, N, B>::Degraded { dependency }),
{
    Response::Degraded { dependency }
}

/// A dependency's answer forwarded with its status and body.
pub fn forward<V, N, B>(status: u16, body: B) -> (response: Response<V, N, B>)
    ensures
        response@ == (ResponseView::<V, N, B>::Forwarded { status, body }),
{
    Response::Forwarded { status, body }
}

/// `500`: a reachable dependency answered `200` but its body lacked a
/// numeric `result`. That is a contract violation this service cannot
/// recover from, so it surfaces a `500` rather than guessing.
pub fn malformed<V, N, B>(dependency: Dependency) -> (response: Response<V, N, B>)
    ensures
        response@ == (ResponseView::<V, N, B>::Malformed { dependency }),
{
    Response::Malformed { dependency }
}

/// `422`: the request is invalid, for the reason `message` gives.
pub fn unprocessable<V, N, B>(message: &str) -> (response: Response<V, N, B>)
    ensures
        response@ == (ResponseView::<V, N, B>::Unprocessable { message: message@ }),
{
    Response::Unprocessable { message: message.to_owned() }
}

/// What came back from calling a dependency.
pub enum CallOutcome<N, B> {
    /// The dependency could not be reached.
    Unreachable,
    /// The dependency answered with `status` and `body`; `result` is the
    /// body's numeric `result` field, where it has one.
    Answered { status: u16, result: Option<N>, body: B },
}

/// How a call's outcome is classified: the numeric `result` of a `200`, or
/// the response that ends the request.
pub open spec fn ask_spec<V, N, B>(outcome: CallOutcome<N, B>, dependency: Dependency) -> Result<N, ResponseView<V, N, B>> {
    match outcome {
        CallOutcome::Unreachable => Err(ResponseView::Degraded { dependency }),
        CallOutcome::Answered { status, result, body } => {
            if status == 200 {
                match result {
                    Some(value) => Ok(value),
                    None => Err(ResponseView::Malformed { dependency }),
                }
            } else if status == 422 {
                Err(ResponseView::Forwarded { status: 422, body })
            } else {
                Err(ResponseView::Degraded { dependency })
            }
        },
    }
}

/// The model of a classified outcome.
pub open spec fn asked_view<V, N, B>(asked: Result<N, Response<V, N, B>>) -> Result<N, ResponseView<V, N, B>> {
    match asked {
        Ok(value) => Ok(value),
        Err(response) => Err(response@),
    }
}

/// Classify the outcome of one call to `dependency`:
///
/// - unreachable, or a status other than `200` and `422`: `503` degraded
/// - `422`: forwarded `422` (the dependency rejected the input)
/// - `200` without a numeric `result`: `500` malformed
/// - `200` with a numeric `result`: that result
pub fn ask<V, N, B>(outcome: CallOutcome<N, B>, dependency: Dependency) -> (asked: Result<N, Response<V, N, B>>)
    ensures
        asked_view(asked) == ask_spec::<V, N, B>(outcome, dependency),
        asked is Ok <==> match outcome {
            CallOutcome::Answered { status, result, .. } => status == 200 && result is Some,
            CallOutcome::Unreachable => false,
        },
        match outcome {
            CallOutcome::Answered { status, result, body } => {
                &&& (status == 200 && result is Some) ==> asked_view(asked) == Ok::<N, ResponseView<V, N, B>>(result->Some_0)
                &&& (status == 200 && result is None) ==> asked_view(asked) == Err::<N, ResponseView<V, N, B>>(
                    ResponseView::Malformed { dependency },
                )
                &&& status == 422 ==> asked_view(asked) == Err::<N, ResponseView<V, N, B>>(
                    ResponseView::Forwarded { status: 422, body },
                )
                &&& (status != 200 && status != 422) ==> asked_view(asked) == Err::<N, ResponseView<V, N, B>>(
                    ResponseView::Degraded { dependency },
                )
            },
            CallOutcome::Unreachable => true,
        },
        outcome is Unreachable ==> asked_view(asked) == Err::<N, ResponseView<V, N, B>>(
            ResponseView::Degraded { dependency },
        ),
{
    match outcome {
        CallOutcome::Unreachable => Err(degraded(dependency)),
        CallOutcome::Answered { status, result, body } => {
            if status == 200 {
                match result {
                    Some(value) => Ok(value),
                    None => Err(malformed(dependency)),
                }
            } else if status == 422 {
                Err(forward(422, body))
            } else {
                Err(degraded(dependency))
            }
        },
    }
}

} // verus!
