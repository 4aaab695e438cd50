use vstd::prelude::*;

use crate::api::{
    ask, ask_spec, ok, unprocessable, CallOutcome, Dependency, Response, ResponseView,
};

verus! {

/// Which of the three calls of the current component is outstanding.
pub enum Stage<N> {
    /// The first product of the component was asked for.
    LeftProduct,
    /// The second product was asked for; the first one is `lhs`.
    RightProduct { lhs: N },
    /// The difference of the two products was asked for.
    Difference,
}

/// A call that the service has to make next.
pub enum Request<N> {
    /// `srvcs-floatmultiply` on `{"a": a[a_index], "b": b[b_index]}`.
    Multiply { a_index: usize, b_index: usize },
    /// `srvcs-floatsubtract` on `{"a": lhs, "b": rhs}`.
    Subtract { lhs: N, rhs: N },
}

impl<N> Request<N> {
    /// The primitive this request goes to.
    pub open spec fn target(self) -> Dependency {
        match self {
            Request::Multiply { .. } => Dependency::FloatMultiply,
            Request::Subtract { .. } => Dependency::FloatSubtract,
        }
    }

    /// The primitive this request goes to.
    pub fn dependency(&self) -> (dependency: Dependency)
        ensures
            dependency == self.target(),
    {
        match self {
            Request::Multiply { .. } => Dependency::FloatMultiply,
            Request::Subtract { .. } => Dependency::FloatSubtract,
        }
    }
}

/// The indices `(i, j, k, l)` of component `c` of `a × b`, which is
/// `a[i] * b[j] - a[k] * b[l]`:
/// `cx = a1*b2 - a2*b1`, `cy = a2*b0 - a0*b2`, `cz = a0*b1 - a1*b0`.
pub open spec fn operand_indices(c: int) -> (int, int, int, int) {
    if c == 0 {
        (1, 2, 2, 1)
    } else if c == 1 {
        (2, 0, 0, 2)
    } else {
        (0, 1, 1, 0)
    }
}

/// The first multiplication of component `c`.
pub open spec fn left_request<N>(c: int) -> Request<N> {
    Request::Multiply { a_index: operand_indices(c).0 as usize, b_index: operand_indices(c).1 as usize }
}

/// The second multiplication of component `c`.
pub open spec fn right_request<N>(c: int) -> Request<N> {
    Request::Multiply { a_index: operand_indices(c).2 as usize, b_index: operand_indices(c).3 as usize }
}

fn indices(c: usize) -> (ijkl: (usize, usize, usize, usize))
    requires
        c < 3,
    ensures
        ijkl.0 == operand_indices(c as int).0,
        ijkl.1 == operand_indices(c as int).1,
        ijkl.2 == operand_indices(c as int).2,
        ijkl.3 == operand_indices(c as int).3,
{
    if c == 0 {
        (1, 2, 2, 1)
    } else if c == 1 {
        (2, 0, 0, 2)
    } else {
        (0, 1, 1, 0)
    }
}

/// An evaluation of `a × b` in progress.
pub struct Evaluation<V, N> {
    a: Vec<V>,
    b: Vec<V>,
    component: usize,
    stage: Stage<N>,
    result: Vec<N>,
}

/// The model of an evaluation in progress: the two input vectors, the
/// component being computed, the outstanding call and the components
/// computed so far.
pub struct EvaluationView<V, N> {
    pub a: Seq<V>,
    pub b: Seq<V>,
    pub component: nat,
    pub stage: Stage<N>,
    pub result: Seq<N>,
}

impl<V, N> EvaluationView<V, N> {
    /// Both vectors have length 3, and `result` holds the components before
    /// the current one.
    pub open spec fn wf(self) -> bool {
        &&& self.a.len() == 3
        &&& self.b.len() == 3
        &&& self.component < 3
        &&& self.result.len() == self.component
    }

    /// The primitive whose answer the evaluation is waiting for.
    pub open spec fn awaiting(self) -> Dependency {
        match self.stage {
            Stage::Difference => Dependency::FloatSubtract,
            _ => Dependency::FloatMultiply,
        }
    }
}

impl<V, N> View for Evaluation<V, N> {
    type V = EvaluationView<V, N>;

    closed spec fn view(&self) -> EvaluationView<V, N> {
        EvaluationView {
            a: self.a@,
            b: self.b@,
            component: self.component as nat,
            stage: self.stage,
            result: self.result@,
        }
    }
}

impl<V, N> Evaluation<V, N> {
    #[verifier::type_invariant]
    spec fn well_formed(self) -> bool {
        self@.wf()
    }
}

/// What the service does next: make a call, or answer the request.
pub enum Next<V, N, B> {
    Call { state: Evaluation<V, N>, request: Request<N> },
    Respond(Response<V, N, B>),
}

/// The model of [`Next`].
pub enum NextView<V, N, B> {
    Call { state: EvaluationView<V, N>, request: Request<N> },
    Respond(ResponseView<V, N, B>),
}

impl<V, N, B> View for Next<V, N, B> {
    type V = NextView<V, N, B>;

    open spec fn view(&self) -> NextView<V, N, B> {
        match self {
            Next::Call { state, request } => NextView::Call { state: state@, request: *request },
            Next::Respond(response) => NextView::Respond(response@),
        }
    }
}

/// How a request for `a × b` starts: both vectors must have length 3;
/// otherwise the request is refused with `422`, before any call.
pub open spec fn begin_spec<V, N, B>(a: Seq<V>, b: Seq<V>) -> NextView<V, N, B> {
    if a.len() != 3 {
        NextView::Respond(ResponseView::Unprocessable { message: "vector a must have length 3"@ })
    } else if b.len() != 3 {
        NextView::Respond(ResponseView::Unprocessable { message: "vector b must have length 3"@ })
    } else {
        NextView::Call {
            state: EvaluationView {
                a,
                b,
                component: 0,
                stage: Stage::LeftProduct,
                result: Seq::empty(),
            },
            request: left_request(0),
        }
    }
}

/// One step of the evaluation: the outstanding call came back with
/// `outcome`. A failed call ends the request with the response `ask` gives
/// for it; a successful one leads to the next call, or, after the third
/// difference, to `200` with `[cx, cy, cz]`.
pub open spec fn advance_spec<V, N, B>(s: EvaluationView<V, N>, outcome: CallOutcome<N, B>) -> NextView<V, N, B> {
    match ask_spec::<V, N, B>(outcome, s.awaiting()) {
        Err(response) => NextView::Respond(response),
        Ok(value) => match s.stage {
            Stage::LeftProduct => NextView::Call {
                state: EvaluationView { stage: Stage::RightProduct { lhs: value }, ..s },
                request: right_request(s.component as int),
            },
            Stage::RightProduct { lhs } => NextView::Call {
                state: EvaluationView { stage: Stage::Difference, ..s },
                request: Request::Subtract { lhs, rhs: value },
            },
            Stage::Difference => if s.component + 1 == 3 {
                NextView::Respond(ResponseView::Evaluated { a: s.a, b: s.b, result: s.result.push(value) })
            } else {
                NextView::Call {
                    state: EvaluationView {
                        component: s.component + 1,
                        stage: Stage::LeftProduct,
                        result: s.result.push(value),
                        ..s
                    },
                    request: left_request((s.component + 1) as int),
                }
            },
        },
    }
}

/// `POST /`: start computing `a × b`.
///
/// Each component is `floatsubtract(floatmultiply(..), floatmultiply(..))`;
/// the elements of `a` and `b` are never inspected here, they are forwarded
/// to the primitives. A vector whose length is not 3 is refused with `422`.
pub fn evaluate<V, N, B>(a: Vec<V>, b: Vec<V>) -> (next: Next<V, N, B>)
    ensures
        next@ == begin_spec::<V, N, B>(a@, b@),
        a@.len() != 3 ==> next@ == NextView::<V, N, B>::Respond(
            ResponseView::Unprocessable { message: "vector a must have length 3"@ },
        ),
        a@.len() == 3 && b@.len() != 3 ==> next@ == NextView::<V, N, B>::Respond(
            ResponseView::Unprocessable { message: "vector b must have length 3"@ },
        ),
        next@ matches NextView::Call { state, request } ==> {
            &&& a@.len() == 3 && b@.len() == 3
            &&& state.a == a@ && state.b == b@
            &&& request == Request::<N>::Multiply { a_index: 1, b_index: 2 }
        },
{
    if a.len() != 3 {
        return Next::Respond(unprocessable("vector a must have length 3"));
    }
    if b.len() != 3 {
        return Next::Respond(unprocessable("vector b must have length 3"));
    }
    let (i, j, _, _) = indices(0);
    let state = Evaluation { a, b, component: 0, stage: Stage::LeftProduct, result: Vec::new() };
    Next::Call { state, request: Request::Multiply { a_index: i, b_index: j } }
}

impl<V, N> Evaluation<V, N> {
    /// The first input vector.
    pub fn a(&self) -> (a: &Vec<V>)
        ensures
            a@ == self@.a,
    {
        &self.a
    }

    /// The second input vector.
    pub fn b(&self) -> (b: &Vec<V>)
        ensures
            b@ == self@.b,
    {
        &self.b
    }

    /// The outstanding call came back with `outcome`: go on with the next
    /// call, or answer the request.
    pub fn advance<B>(self, outcome: CallOutcome<N, B>) -> (next: Next<V, N, B>)
        ensures
            next@ == advance_spec(self@, outcome),
            next@ matches NextView::Call { state, .. } ==> state.a == self@.a && state.b == self@.b,
            next@ matches NextView::Respond(r) ==> match r {
                ResponseView::Degraded { dependency } => dependency == match self@.stage {
                    Stage::Difference => Dependency::FloatSubtract,
                    _ => Dependency::FloatMultiply,
                },
                ResponseView::Malformed { dependency } => dependency == match self@.stage {
                    Stage::Difference => Dependency::FloatSubtract,
                    _ => Dependency::FloatMultiply,
                },
                _ => true,
            },
    {
        proof {
            use_type_invariant(&self);
        }
        let dependency = match self.stage {
            Stage::Difference => Dependency::FloatSubtract,
            _ => Dependency::FloatMultiply,
        };
        let value = match ask(outcome, dependency) {
            Ok(value) => value,
            Err(response) => return Next::Respond(response),
        };
        let Evaluation { a, b, component, stage, result } = self;
        let mut result = result;
        match stage {
            Stage::LeftProduct => {
                let (_, _, k, l) = indices(component);
                let state = Evaluation { a, b, component, stage: Stage::RightProduct { lhs: value }, result };
                Next::Call { state, request: Request::Multiply { a_index: k, b_index: l } }
            },
            Stage::RightProduct { lhs } => {
                let state = Evaluation { a, b, component, stage: Stage::Difference, result };
                Next::Call { state, request: Request::Subtract { lhs, rhs: value } }
            },
            Stage::Difference => {
                result.push(value);
                if component == 2 {
                    Next::Respond(ok(a, b, result))
                } else {
                    let (i, j, _, _) = indices(component + 1);
                    let state = Evaluation { a, b, component: component + 1, stage: Stage::LeftProduct, result };
                    Next::Call { state, request: Request::Multiply { a_index: i, b_index: j } }
                }
            },
        }
    }
}

} // verus!
