use grafana_migrate::document::Document;
use grafana_migrate::kind::Kind;
use grafana_migrate::transform::{
    transform, transform_dashboard, transform_datasource, transform_folder, Malformed,
};

fn doc(text: &str) -> Document {
    Document::parse(text).expect("the text is JSON")
}

#[test]
fn folder_loses_id_and_is_marked_to_overwrite() {
    let out = transform_folder(doc(r#"{"uid":"a","id":7,"title":"X"}"#)).unwrap();
    assert_eq!(out, doc(r#"{"uid":"a","title":"X","overwrite":true}"#));
    assert_eq!(out.text_at("id"), None);
}

#[test]
fn folder_without_id_is_only_marked() {
    let out = transform_folder(doc(r#"{"uid":"a"}"#)).unwrap();
    assert_eq!(out, doc(r#"{"uid":"a","overwrite":true}"#));
}

#[test]
fn folder_overwrite_flag_is_replaced() {
    let out = transform_folder(doc(r#"{"uid":"a","overwrite":false}"#)).unwrap();
    assert_eq!(out, doc(r#"{"uid":"a","overwrite":true}"#));
}

#[test]
fn folder_that_is_no_object_is_malformed() {
    assert_eq!(transform_folder(doc("[1,2]")), Err(Malformed::NotAnObject));
    assert_eq!(transform_folder(doc("\"a\"")), Err(Malformed::NotAnObject));
    assert_eq!(transform_folder(doc("null")), Err(Malformed::NotAnObject));
}

#[test]
fn dashboard_is_made_replayable() {
    let fetched = doc(
        r#"{"meta":{"folderUid":"F1","slug":"s"},"dashboard":{"id":42,"uid":"d1","title":"T"}}"#,
    );
    let out = transform_dashboard(fetched).unwrap();
    assert_eq!(
        out,
        doc(r#"{"dashboard":{"uid":"d1","title":"T"},"folderUid":"F1","overwrite":true}"#)
    );
    assert_eq!(out.text_at("folderUid"), Some("F1".to_string()));
    assert_eq!(out.text_at("meta"), None);
}

#[test]
fn dashboard_keeps_its_other_fields() {
    let fetched = doc(
        r#"{"meta":{"folderUid":""},"dashboard":{"id":1,"panels":[{"id":3}]},"extra":[1,{"id":2}]}"#,
    );
    let out = transform_dashboard(fetched).unwrap();
    assert_eq!(
        out,
        doc(
            r#"{"dashboard":{"panels":[{"id":3}]},"extra":[1,{"id":2}],"folderUid":"","overwrite":true}"#
        )
    );
}

#[test]
fn dashboard_folder_uid_field_is_replaced() {
    let fetched = doc(r#"{"meta":{"folderUid":"new"},"dashboard":{},"folderUid":"old"}"#);
    let out = transform_dashboard(fetched).unwrap();
    assert_eq!(out, doc(r#"{"dashboard":{},"folderUid":"new","overwrite":true}"#));
}

#[test]
fn dashboard_that_is_no_object_is_malformed() {
    assert_eq!(transform_dashboard(doc("7")), Err(Malformed::NotAnObject));
}

#[test]
fn dashboard_without_folder_uid_is_malformed() {
    assert_eq!(
        transform_dashboard(doc(r#"{"dashboard":{"id":1}}"#)),
        Err(Malformed::NoFolderUid)
    );
    assert_eq!(
        transform_dashboard(doc(r#"{"meta":{},"dashboard":{"id":1}}"#)),
        Err(Malformed::NoFolderUid)
    );
    assert_eq!(
        transform_dashboard(doc(r#"{"meta":{"folderUid":3},"dashboard":{"id":1}}"#)),
        Err(Malformed::NoFolderUid)
    );
    assert_eq!(
        transform_dashboard(doc(r#"{"meta":"F1","dashboard":{"id":1}}"#)),
        Err(Malformed::NoFolderUid)
    );
}

#[test]
fn dashboard_without_dashboard_object_is_malformed() {
    assert_eq!(
        transform_dashboard(doc(r#"{"meta":{"folderUid":"F1"}}"#)),
        Err(Malformed::NoDashboard)
    );
    assert_eq!(
        transform_dashboard(doc(r#"{"meta":{"folderUid":"F1"},"dashboard":[1]}"#)),
        Err(Malformed::NoDashboard)
    );
}

#[test]
fn datasource_loses_id_and_org_id() {
    let out =
        transform_datasource(doc(r#"{"id":3,"orgId":1,"uid":"ds","name":"prom"}"#)).unwrap();
    assert_eq!(out, doc(r#"{"uid":"ds","name":"prom"}"#));
}

#[test]
fn datasource_is_not_marked_to_overwrite() {
    let out = transform_datasource(doc(r#"{"uid":"ds"}"#)).unwrap();
    assert_eq!(out.render(), Some(r#"{"uid":"ds"}"#.to_string()));
}

#[test]
fn datasource_that_is_no_object_is_malformed() {
    assert_eq!(transform_datasource(doc("true")), Err(Malformed::NotAnObject));
}

#[test]
fn transform_goes_by_kind() {
    let text = r#"{"id":1,"orgId":2,"uid":"u"}"#;
    assert_eq!(
        transform(Kind::Folder, doc(text)).unwrap(),
        doc(r#"{"orgId":2,"uid":"u","overwrite":true}"#)
    );
    assert_eq!(transform(Kind::Datasource, doc(text)).unwrap(), doc(r#"{"uid":"u"}"#));
    assert_eq!(transform(Kind::Dashboard, doc(text)), Err(Malformed::NoFolderUid));
}

#[test]
fn transforming_twice_changes_nothing_more() {
    let once = transform(Kind::Folder, doc(r#"{"uid":"a","id":7}"#)).unwrap();
    let twice = transform(Kind::Folder, once.clone()).unwrap();
    assert_eq!(once, twice);
    let once = transform(Kind::Datasource, doc(r#"{"uid":"a","id":7,"orgId":1}"#)).unwrap();
    let twice = transform(Kind::Datasource, once.clone()).unwrap();
    assert_eq!(once, twice);
}

#[test]
fn document_parse_rejects_what_is_not_json() {
    assert_eq!(Document::parse("{"), None);
    assert_eq!(Document::parse(""), None);
    assert_eq!(Document::parse("<html></html>"), None);
    assert!(Document::parse(" {\"a\": 1} ").is_some());
}

#[test]
fn document_render_is_compact_with_sorted_keys() {
    let d = doc("{ \"b\" : [1, 2.5, null], \"a\" : \"x\" }");
    assert_eq!(d.render(), Some(r#"{"a":"x","b":[1,2.5,null]}"#.to_string()));
}

#[test]
fn document_reads_text_fields() {
    let d = doc(r#"{"uid":"a","id":7,"nested":{"uid":"b"}}"#);
    assert!(d.is_object());
    assert_eq!(d.text_at("uid"), Some("a".to_string()));
    assert_eq!(d.text_at("id"), None);
    assert_eq!(d.text_at("nested"), None);
    assert_eq!(d.text_at("missing"), None);
    assert!(!doc("[]").is_object());
    assert_eq!(doc("[]").text_at("uid"), None);
}

#[test]
fn document_clone_is_equal() {
    let d = doc(r#"{"uid":"a","list":[1,2,3]}"#);
    assert_eq!(d.clone(), d);
    assert_ne!(d, doc(r#"{"uid":"b","list":[1,2,3]}"#));
}

#[test]
fn document_parse_reads_the_same_text_the_same_way() {
    let text = r#"{"b":[1,{"c":null}],"a":1.5e3,"a":"last wins"}"#;
    assert_eq!(Document::parse(text), Document::parse(text));
    assert_eq!(doc(text).render(), Some(r#"{"a":"last wins","b":[1,{"c":null}]}"#.to_string()));
}
