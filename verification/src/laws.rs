use vstd::prelude::*;

use crate::api::{SERVICE, CONCERN, FLOATMULTIPLY, FLOATSUBTRACT, ask_spec, dependency_of, error_of, status_of, CallOutcome, Dependency, ResponseView};
use crate::evaluation::{advance_spec, begin_spec, EvaluationView, NextView, Request, Stage};

verus! {

/// `a × b` as the service composes it from a multiplication `times` and a
/// subtraction `minus`:
/// `[minus(times(a1, b2), times(a2, b1)), minus(times(a2, b0), times(a0, b2)), minus(times(a0, b1), times(a1, b0))]`.
pub open spec fn cross<V, N>(a: Seq<V>, b: Seq<V>, times: spec_fn(V, V) -> N, minus: spec_fn(N, N) -> N) -> Seq<N> {
    seq![
        minus(times(a[1], b[2]), times(a[2], b[1])),
        minus(times(a[2], b[0]), times(a[0], b[2])),
        minus(times(a[0], b[1]), times(a[1], b[0])),
    ]
}

/// Primitives that answer every call with `200` and the value of `times` or
/// `minus` on the operands they were sent.
pub open spec fn honest<V, N, B>(times: spec_fn(V, V) -> N, minus: spec_fn(N, N) -> N, body: B) -> spec_fn(EvaluationView<V, N>, Request<N>) -> CallOutcome<N, B> {
    |s: EvaluationView<V, N>, request: Request<N>|
        match request {
            Request::Multiply { a_index, b_index } => CallOutcome::Answered {
                status: 200,
                result: Some(times(s.a[a_index as int], s.b[b_index as int])),
                body,
            },
            Request::Subtract { lhs, rhs } => CallOutcome::Answered {
                status: 200,
                result: Some(minus(lhs, rhs)),
                body,
            },
        }
}

/// The evaluation after at most `calls` more calls, each answered by
/// `answer`.
pub open spec fn run<V, N, B>(next: NextView<V, N, B>, answer: spec_fn(EvaluationView<V, N>, Request<N>) -> CallOutcome<N, B>, calls: nat) -> NextView<V, N, B>
    decreases calls,
{
    if calls == 0 {
        next
    } else {
        match next {
            NextView::Call { state, request } => run(advance_spec(state, answer(state, request)), answer, (calls - 1) as nat),
            NextView::Respond(_) => next,
        }
    }
}

/// The number of calls an evaluation still has to make.
pub open spec fn calls_left<V, N>(s: EvaluationView<V, N>) -> nat {
    let done: nat = match s.stage {
        Stage::LeftProduct => 0,
        Stage::RightProduct { .. } => 1,
        Stage::Difference => 2,
    };
    (3 * (3 - s.component) - done) as nat
}

/// With primitives that compute `times` and `minus`, a request for `a × b`
/// with vectors of length 3 makes exactly nine calls and is answered `200`
/// with both input vectors and `cross(a, b, times, minus)`.
pub proof fn lemma_honest_primitives_give_cross_product<V, N, B>(
    a: Seq<V>,
    b: Seq<V>,
    times: spec_fn(V, V) -> N,
    minus: spec_fn(N, N) -> N,
    body: B,
)
    requires
        a.len() == 3,
        b.len() == 3,
    ensures
        run(begin_spec::<V, N, B>(a, b), honest(times, minus, body), 8) is Call,
        run(begin_spec::<V, N, B>(a, b), honest(times, minus, body), 9) == NextView::<V, N, B>::Respond(
            ResponseView::Evaluated { a, b, result: cross(a, b, times, minus) },
        ),
{
    let answer = honest::<V, N, B>(times, minus, body);
    let n0 = begin_spec::<V, N, B>(a, b);
    let s0 = n0->state;
    let n1 = advance_spec(s0, answer(s0, n0->request));
    let n2 = advance_spec(n1->state, answer(n1->state, n1->request));
    let n3 = advance_spec(n2->state, answer(n2->state, n2->request));
    let n4 = advance_spec(n3->state, answer(n3->state, n3->request));
    let n5 = advance_spec(n4->state, answer(n4->state, n4->request));
    let n6 = advance_spec(n5->state, answer(n5->state, n5->request));
    let n7 = advance_spec(n6->state, answer(n6->state, n6->request));
    let n8 = advance_spec(n7->state, answer(n7->state, n7->request));
    let n9 = advance_spec(n8->state, answer(n8->state, n8->request));
    assert(n1 is Call && n2 is Call && n3 is Call);
    assert(n4 is Call && n5 is Call && n6 is Call);
    assert(n7 is Call && n8 is Call);
    assert(n3->state.result =~= seq![cross(a, b, times, minus)[0]]);
    assert(n6->state.result =~= seq![cross(a, b, times, minus)[0], cross(a, b, times, minus)[1]]);
    assert(n9->Respond_0->result =~= cross(a, b, times, minus));
    assert(n9 == NextView::<V, N, B>::Respond(
        ResponseView::Evaluated { a, b, result: cross(a, b, times, minus) },
    ));
    assert(run(n9, answer, 0) == n9);
    assert(run(n8, answer, 1) == n9);
    assert(run(n7, answer, 2) == n9);
    assert(run(n6, answer, 3) == n9);
    assert(run(n5, answer, 4) == n9);
    assert(run(n4, answer, 5) == n9);
    assert(run(n3, answer, 6) == n9);
    assert(run(n2, answer, 7) == n9);
    assert(run(n1, answer, 8) == n9);
    assert(run(n0, answer, 9) == n9);
    assert(run(n8, answer, 0) == n8);
    assert(run(n7, answer, 1) == n8);
    assert(run(n6, answer, 2) == n8);
    assert(run(n5, answer, 3) == n8);
    assert(run(n4, answer, 4) == n8);
    assert(run(n3, answer, 5) == n8);
    assert(run(n2, answer, 6) == n8);
    assert(run(n1, answer, 7) == n8);
    assert(run(n0, answer, 8) == n8);
}


/// Once answered, a request stays answered: running on adds no call.
pub proof fn lemma_answered_stays<V, N, B>(
    response: ResponseView<V, N, B>,
    answer: spec_fn(EvaluationView<V, N>, Request<N>) -> CallOutcome<N, B>,
    calls: nat,
)
    ensures
        run(NextView::Respond(response), answer, calls) == NextView::Respond(response),
{
}

/// Every call that succeeds brings a well-formed evaluation one call
/// closer to its answer.
pub proof fn lemma_step_makes_progress<V, N, B>(s: EvaluationView<V, N>, outcome: CallOutcome<N, B>)
    requires
        s.wf(),
    ensures
        calls_left(s) >= 1,
        advance_spec::<V, N, B>(s, outcome) matches NextView::Call { state, .. } ==> state.wf() && calls_left(state) == calls_left(s) - 1,
{
}

/// Whatever the primitives answer, a well-formed evaluation is answered
/// after at most `calls_left` more calls.
pub proof fn lemma_run_ends<V, N, B>(
    s: EvaluationView<V, N>,
    request: Request<N>,
    answer: spec_fn(EvaluationView<V, N>, Request<N>) -> CallOutcome<N, B>,
    calls: nat,
)
    requires
        s.wf(),
        calls >= calls_left(s),
    ensures
        run(NextView::Call { state: s, request }, answer, calls) is Respond,
    decreases calls,
{
    lemma_step_makes_progress::<V, N, B>(s, answer(s, request));
    let next = advance_spec(s, answer(s, request));
    match next {
        NextView::Call { state, request: r } => {
            lemma_run_ends(state, r, answer, (calls - 1) as nat);
        },
        NextView::Respond(response) => {
            lemma_answered_stays(response, answer, (calls - 1) as nat);
        },
    }
}

/// A request makes at most nine calls to the primitives, whatever they
/// answer: two multiplications and one subtraction per component.
pub proof fn lemma_at_most_nine_calls<V, N, B>(
    a: Seq<V>,
    b: Seq<V>,
    answer: spec_fn(EvaluationView<V, N>, Request<N>) -> CallOutcome<N, B>,
)
    ensures
        run(begin_spec::<V, N, B>(a, b), answer, 9) is Respond,
{
    match begin_spec::<V, N, B>(a, b) {
        NextView::Call { state, request } => {
            lemma_run_ends(state, request, answer, 9);
        },
        NextView::Respond(response) => {
            lemma_answered_stays(response, answer, 9);
        },
    }
}

/// A call that fails ends the request at once, with the response that
/// `ask` gives for that failure, and no further call is made.
pub proof fn lemma_failed_call_ends_request<V, N, B>(s: EvaluationView<V, N>, outcome: CallOutcome<N, B>)
    requires
        ask_spec::<V, N, B>(outcome, s.awaiting()) is Err,
    ensures
        advance_spec::<V, N, B>(s, outcome) == NextView::<V, N, B>::Respond(
            ask_spec::<V, N, B>(outcome, s.awaiting())->Err_0,
        ),
{
}

/// A primitive's `422` (an element that is not a number) is forwarded
/// unchanged: the request ends with that status and that body.
pub proof fn lemma_rejection_is_forwarded_unchanged<V, N, B>(s: EvaluationView<V, N>, result: Option<N>, body: B)
    ensures
        advance_spec::<V, N, B>(s, CallOutcome::Answered { status: 422, result, body })
            == NextView::<V, N, B>::Respond(ResponseView::Forwarded { status: 422, body }),
        status_of(ResponseView::<V, N, B>::Forwarded { status: 422, body }) == 422,
{
}

/// The input vectors are carried unchanged through the evaluation, and a
/// `200` echoes them.
pub proof fn lemma_inputs_are_echoed<V, N, B>(s: EvaluationView<V, N>, outcome: CallOutcome<N, B>)
    ensures
        advance_spec::<V, N, B>(s, outcome) matches NextView::Call { state, .. } ==> state.a == s.a && state.b == s.b,
        advance_spec::<V, N, B>(s, outcome) matches NextView::Respond(ResponseView::Evaluated { a, b, .. }) ==> a == s.a && b == s.b,
{
}

/// `b × a = -(a × b)` component by component, where the multiplication
/// commutes and `minus(y, x)` is the negation `neg` of `minus(x, y)`.
pub proof fn lemma_cross_is_anticommutative<V, N>(
    a: Seq<V>,
    b: Seq<V>,
    times: spec_fn(V, V) -> N,
    minus: spec_fn(N, N) -> N,
    neg: spec_fn(N) -> N,
)
    requires
        forall|x: V, y: V| #[trigger] times(x, y) == times(y, x),
        forall|x: N, y: N| #[trigger] minus(y, x) == neg(minus(x, y)),
    ensures
        cross(b, a, times, minus) == cross(a, b, times, minus).map_values(neg),
{
    let ab = cross(a, b, times, minus);
    let ba = cross(b, a, times, minus);
    assert(times(b[1], a[2]) == times(a[2], b[1]));
    assert(times(b[2], a[1]) == times(a[1], b[2]));
    assert(times(b[2], a[0]) == times(a[0], b[2]));
    assert(times(b[0], a[2]) == times(a[2], b[0]));
    assert(times(b[0], a[1]) == times(a[1], b[0]));
    assert(times(b[1], a[0]) == times(a[0], b[1]));
    assert(minus(times(a[2], b[1]), times(a[1], b[2])) == neg(minus(times(a[1], b[2]), times(a[2], b[1]))));
    assert(minus(times(a[0], b[2]), times(a[2], b[0])) == neg(minus(times(a[2], b[0]), times(a[0], b[2]))));
    assert(minus(times(a[1], b[0]), times(a[0], b[1])) == neg(minus(times(a[0], b[1]), times(a[1], b[0]))));
    assert(ba =~= ab.map_values(neg));
}

/// Exact integer multiplication.
pub open spec fn int_times(x: int, y: int) -> int {
    x * y
}

/// Exact integer subtraction.
pub open spec fn int_minus(x: int, y: int) -> int {
    x - y
}

/// With exact arithmetic, parallel vectors have a zero cross product:
/// `a × (k·a) = [0, 0, 0]`.
pub proof fn lemma_parallel_vectors_cross_to_zero(a: Seq<int>, k: int)
    requires
        a.len() == 3,
    ensures
        cross(a, a.map_values(|x: int| k * x), |x: int, y: int| int_times(x, y), |x: int, y: int| int_minus(x, y))
            == seq![0int, 0int, 0int],
{
    let b = a.map_values(|x: int| k * x);
    let (a0, a1, a2) = (a[0], a[1], a[2]);
    assert(a1 * (k * a2) - a2 * (k * a1) == 0) by (nonlinear_arith);
    assert(a2 * (k * a0) - a0 * (k * a2) == 0) by (nonlinear_arith);
    assert(a0 * (k * a1) - a1 * (k * a0) == 0) by (nonlinear_arith);
    assert(cross(a, b, |x: int, y: int| int_times(x, y), |x: int, y: int| int_minus(x, y)) =~= seq![0int, 0int, 0int]);
}


/// A vector whose length is not 3 is refused with `422` and its message,
/// before any call; otherwise the evaluation starts on exactly the given
/// vectors, nothing computed yet, asking first for `a[1] · b[2]`.
pub proof fn lemma_only_length_three_vectors_are_evaluated<V, N, B>(
    a: Seq<V>,
    b: Seq<V>,
    answer: spec_fn(EvaluationView<V, N>, Request<N>) -> CallOutcome<N, B>,
    calls: nat,
)
    ensures
        a.len() != 3 ==> begin_spec::<V, N, B>(a, b) == NextView::<V, N, B>::Respond(
            ResponseView::Unprocessable { message: "vector a must have length 3"@ },
        ),
        a.len() == 3 && b.len() != 3 ==> begin_spec::<V, N, B>(a, b) == NextView::<V, N, B>::Respond(
            ResponseView::Unprocessable { message: "vector b must have length 3"@ },
        ),
        (a.len() != 3 || b.len() != 3) ==> {
            &&& begin_spec::<V, N, B>(a, b) matches NextView::Respond(r)
            &&& status_of(r) == 422
            &&& run(begin_spec::<V, N, B>(a, b), answer, calls) == begin_spec::<V, N, B>(a, b)
        },
        begin_spec::<V, N, B>(a, b) matches NextView::Call { state, request } ==> {
            &&& a.len() == 3 && b.len() == 3
            &&& state.a == a && state.b == b
            &&& state.component == 0 && state.result.len() == 0
            &&& state.stage is LeftProduct
            &&& request == Request::<N>::Multiply { a_index: 1, b_index: 2 }
        },
{
    match begin_spec::<V, N, B>(a, b) {
        NextView::Respond(r) => lemma_answered_stays(r, answer, calls),
        _ => {},
    }
}

/// How every answer of a primitive is classified: only a `200` with a
/// numeric result succeeds, with that number; a `200` without one is a
/// malformed result (`500`); a `422` is forwarded with its body; an
/// unreachable primitive and any other status make the service degraded
/// (`503`), blaming the primitive that was called.
pub proof fn lemma_every_answer_is_classified<V, N, B>(
    status: u16,
    result: Option<N>,
    body: B,
    dependency: Dependency,
)
    ensures
        ask_spec::<V, N, B>(CallOutcome::Unreachable, dependency)
            == Err::<N, ResponseView<V, N, B>>(ResponseView::Degraded { dependency }),
        status != 200 && status != 422 ==> ask_spec::<V, N, B>(CallOutcome::Answered { status, result, body }, dependency)
            == Err::<N, ResponseView<V, N, B>>(ResponseView::Degraded { dependency }),
        status == 422 ==> ask_spec::<V, N, B>(CallOutcome::Answered { status, result, body }, dependency)
            == Err::<N, ResponseView<V, N, B>>(ResponseView::Forwarded { status: 422, body }),
        status == 200 && result is None ==> ask_spec::<V, N, B>(CallOutcome::Answered { status, result, body }, dependency)
            == Err::<N, ResponseView<V, N, B>>(ResponseView::Malformed { dependency }),
        status == 200 && result is Some ==> ask_spec::<V, N, B>(CallOutcome::Answered { status, result, body }, dependency)
            == Ok::<N, ResponseView<V, N, B>>(result->Some_0),
        status_of(ResponseView::<V, N, B>::Degraded { dependency }) == 503,
        status_of(ResponseView::<V, N, B>::Malformed { dependency }) == 500,
{
}

/// Every call the evaluation asks for is the one it then waits on: the
/// primitive whose failure it reports is the target of the outstanding
/// request.
pub proof fn lemma_each_call_is_awaited_from_its_target<V, N, B>(
    a: Seq<V>,
    b: Seq<V>,
    s: EvaluationView<V, N>,
    outcome: CallOutcome<N, B>,
)
    ensures
        begin_spec::<V, N, B>(a, b) matches NextView::Call { state, request } ==> state.awaiting() == request.target(),
        advance_spec::<V, N, B>(s, outcome) matches NextView::Call { state, request } ==> state.awaiting() == request.target(),
{
}

/// A failed call blames the primitive that was called: a multiplication
/// (the first or second product of a component) blames
/// `srvcs-floatmultiply`, the difference blames `srvcs-floatsubtract`.
pub proof fn lemma_failure_blames_the_called_primitive<V, N, B>(s: EvaluationView<V, N>, outcome: CallOutcome<N, B>)
    ensures
        advance_spec::<V, N, B>(s, outcome) matches NextView::Respond(r) ==> {
            &&& (s.stage is LeftProduct || s.stage is RightProduct) && dependency_of(r) is Some
                ==> dependency_of(r) == Some(Dependency::FloatMultiply)
            &&& s.stage is Difference && dependency_of(r) is Some
                ==> dependency_of(r) == Some(Dependency::FloatSubtract)
        },
        (s.stage is LeftProduct || s.stage is RightProduct) ==> advance_spec::<V, N, B>(s, CallOutcome::Unreachable)
            == NextView::<V, N, B>::Respond(ResponseView::Degraded { dependency: Dependency::FloatMultiply }),
        s.stage is Difference ==> advance_spec::<V, N, B>(s, CallOutcome::Unreachable)
            == NextView::<V, N, B>::Respond(ResponseView::Degraded { dependency: Dependency::FloatSubtract }),
{
}

/// What a response says of itself: a `200` carries no error and blames no
/// dependency; only a degraded (`503`) or malformed (`500`) response names
/// a dependency, the one it carries; a refusal is `422` with its message.
pub proof fn lemma_only_failed_dependencies_are_blamed<V, N, B>(r: ResponseView<V, N, B>)
    ensures
        dependency_of(r) is Some <==> (r is Degraded || r is Malformed),
        r matches ResponseView::Degraded { dependency } ==> dependency_of(r) == Some(dependency) && status_of(r) == 503,
        r matches ResponseView::Malformed { dependency } ==> dependency_of(r) == Some(dependency) && status_of(r) == 500,
        r is Evaluated ==> status_of(r) == 200 && dependency_of(r) is None && error_of(r) is None,
        r is Forwarded ==> dependency_of(r) is None && error_of(r) is None,
        r matches ResponseView::Unprocessable { message } ==> status_of(r) == 422 && dependency_of(r) is None
            && error_of(r) == Some(message),
{
}


/// The texts a response and the identity carry: the service and its
/// concern, the names of the two primitives, the `error` of a degraded and
/// of a malformed response; and a forwarded status stays as it is when it
/// is a valid code (100 to 999) and becomes `502 Bad Gateway` otherwise.
pub proof fn lemma_texts_and_forwarded_statuses<V, N, B>(dependency: Dependency, status: u16, body: B)
    ensures
        SERVICE@ == "srvcs-crossproduct"@,
        CONCERN@ == "vectors: 3D cross product"@,
        FLOATMULTIPLY@ == "srvcs-floatmultiply"@,
        FLOATSUBTRACT@ == "srvcs-floatsubtract"@,
        Dependency::FloatMultiply.name_view() == "srvcs-floatmultiply"@,
        Dependency::FloatSubtract.name_view() == "srvcs-floatsubtract"@,
        error_of(ResponseView::<V, N, B>::Degraded { dependency }) == Some("dependency unavailable"@),
        error_of(ResponseView::<V, N, B>::Malformed { dependency }) == Some("dependency returned a malformed result"@),
        100 <= status <= 999 ==> status_of(ResponseView::<V, N, B>::Forwarded { status, body }) == status,
        !(100 <= status <= 999) ==> status_of(ResponseView::<V, N, B>::Forwarded { status, body }) == 502,
{
}

} // verus!
