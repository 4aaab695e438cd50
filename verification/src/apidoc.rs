use vstd::prelude::*;

use crate::api::{status_of, CallOutcome, ResponseView};
use crate::evaluation::{advance_spec, begin_spec, EvaluationView, NextView};

verus! {

/// The OpenAPI description of this service's routes: `GET /` (`index`)
/// and `POST /` (`evaluate`), with the statuses each one may answer.
pub struct ApiDoc;

/// A documented operation: the statuses it may answer with.
pub struct Operation {
    pub responses: Vec<u16>,
}

/// The operations documented for one path.
pub struct PathItem {
    pub get: Option<Operation>,
    pub post: Option<Operation>,
}

/// One documented path.
pub struct DocumentedPath {
    pub path: &'static str,
    pub item: PathItem,
}

/// The documentation: every documented path, in order.
pub struct Documentation {
    pub paths: Vec<DocumentedPath>,
}

/// The model of a [`PathItem`]: the statuses of its `GET` and `POST`.
pub struct PathItemView {
    pub get: Option<Seq<u16>>,
    pub post: Option<Seq<u16>>,
}

impl View for PathItem {
    type V = PathItemView;

    open spec fn view(&self) -> PathItemView {
        PathItemView {
            get: match self.get {
                Some(op) => Some(op.responses@),
                None => None,
            },
            post: match self.post {
                Some(op) => Some(op.responses@),
                None => None,
            },
        }
    }
}

impl View for Documentation {
    type V = Seq<(Seq<char>, PathItemView)>;

    open spec fn view(&self) -> Seq<(Seq<char>, PathItemView)> {
        self.paths@.map_values(|p: DocumentedPath| (p.path@, p.item@))
    }
}

/// The statuses documented for `POST /`: the cross product, an invalid
/// vector or a forwarded rejection, a malformed dependency result, an
/// unavailable dependency.
pub open spec fn evaluate_statuses() -> Seq<u16> {
    seq![200u16, 422u16, 500u16, 503u16]
}

/// What this service documents: `/` with `GET` answering `200` and `POST`
/// answering the statuses of [`evaluate_statuses`].
pub open spec fn documented() -> Seq<(Seq<char>, PathItemView)> {
    seq![("/"@, PathItemView { get: Some(seq![200u16]), post: Some(evaluate_statuses()) })]
}

/// The item documented for `path`: that of the first entry for it.
pub open spec fn lookup(doc: Seq<(Seq<char>, PathItemView)>, path: Seq<char>) -> Option<PathItemView>
    decreases doc.len(),
{
    if doc.len() == 0 {
        None
    } else if doc[0].0 == path {
        Some(doc[0].1)
    } else {
        lookup(doc.drop_first(), path)
    }
}

fn same_text(x: &str, y: &str) -> (same: bool)
    ensures
        same == (x@ == y@),
{
    x.to_owned() == y.to_owned()
}

impl ApiDoc {
    /// The documentation of this service's routes.
    pub fn openapi() -> (doc: Documentation)
        ensures
            doc@ == documented(),
            doc@.len() == 1,
            doc@[0].0 == "/"@,
            doc@[0].1 == (PathItemView {
                get: Some(seq![200u16]),
                post: Some(seq![200u16, 422u16, 500u16, 503u16]),
            }),
    {
        let mut get_responses: Vec<u16> = Vec::new();
        get_responses.push(200);
        let mut post_responses: Vec<u16> = Vec::new();
        post_responses.push(200);
        post_responses.push(422);
        post_responses.push(500);
        post_responses.push(503);
        let root = DocumentedPath {
            path: "/",
            item: PathItem {
                get: Some(Operation { responses: get_responses }),
                post: Some(Operation { responses: post_responses }),
            },
        };
        let mut paths: Vec<DocumentedPath> = Vec::new();
        paths.push(root);
        let doc = Documentation { paths };
        assert(doc.paths@[0].item.get.unwrap().responses@ =~= seq![200u16]);
        assert(doc.paths@[0].item.post.unwrap().responses@ =~= evaluate_statuses());
        assert(doc@ =~= documented());
        doc
    }
}

impl Documentation {
    /// The item documented for `path`, if any.
    pub fn path(&self, path: &str) -> (item: Option<&PathItem>)
        ensures
            lookup(self@, path@) == match item {
                Some(i) => Some(i@),
                None => None::<PathItemView>,
            },
    {
        let mut i: usize = 0;
        assert(self@.skip(0) =~= self@);
        while i < self.paths.len()
            invariant
                i <= self.paths@.len(),
                lookup(self@, path@) == lookup(self@.skip(i as int), path@),
            decreases self.paths@.len() - i,
        {
            assert(self@.skip(i as int).drop_first() =~= self@.skip(i + 1));
            if same_text(self.paths[i].path, path) {
                return Some(&self.paths[i].item);
            }
            i += 1;
        }
        None
    }
}

/// Only `/` is documented: `GET` answering `200`, `POST` answering `200`,
/// `422`, `500` and `503`; no other path is in the documentation.
pub proof fn lemma_only_the_root_is_documented(path: Seq<char>)
    ensures
        documented().len() == 1,
        documented()[0].0 == "/"@,
        lookup(documented(), "/"@) == Some(PathItemView {
            get: Some(seq![200u16]),
            post: Some(seq![200u16, 422u16, 500u16, 503u16]),
        }),
        path != "/"@ ==> lookup(documented(), path) is None,
{
    assert(documented().drop_first() =~= Seq::<(Seq<char>, PathItemView)>::empty());
    assert(lookup(documented().drop_first(), path) is None);
    assert(evaluate_statuses() =~= seq![200u16, 422u16, 500u16, 503u16]);
}

/// Every response that a request for `a × b` can end with has a status
/// documented for `POST /`.
pub proof fn lemma_evaluation_statuses_are_documented<V, N, B>(
    a: Seq<V>,
    b: Seq<V>,
    s: EvaluationView<V, N>,
    outcome: CallOutcome<N, B>,
)
    ensures
        begin_spec::<V, N, B>(a, b) matches NextView::Respond(r) ==> evaluate_statuses().contains(status_of(r)),
        advance_spec::<V, N, B>(s, outcome) matches NextView::Respond(r) ==> evaluate_statuses().contains(status_of(r)),
        lookup(documented(), "/"@) == Some(documented()[0].1),
        documented()[0].1.post == Some(evaluate_statuses()),
{
    assert(evaluate_statuses()[0] == 200);
    assert(evaluate_statuses()[1] == 422);
    assert(evaluate_statuses()[2] == 500);
    assert(evaluate_statuses()[3] == 503);
}

} // verus!
