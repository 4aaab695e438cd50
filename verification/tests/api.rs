use srvcs_crossproduct::api::index;
use srvcs_crossproduct::apidoc::ApiDoc;

#[test]
fn openapi_documents_routes() {
    let doc = ApiDoc::openapi();
    let root = doc.path("/").expect("path / present");
    assert!(root.get.is_some());
    assert!(root.post.is_some());
}

#[test]
fn index_reports_all_dependencies() {
    let info = index();
    assert_eq!(info.service, "srvcs-crossproduct");
    assert_eq!(info.concern, "vectors: 3D cross product");
    assert_eq!(
        info.depends_on,
        vec!["srvcs-floatmultiply", "srvcs-floatsubtract"]
    );
}
