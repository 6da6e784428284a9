//! The rules that turn a document fetched from the source instance into one
//! that can be replayed against another instance.

use crate::document::{member, text_in, Document};
use crate::json::{field_mut, flag_value, insert_field, remove_field, text_value, Json};
use crate::kind::Kind;
use vstd::prelude::*;

verus! {

/// Why a fetched document cannot be made replayable.
#[derive(Debug, Clone, Copy, PartialEq, Eq, Structural)]
pub enum Malformed {
    /// The document is not a JSON object.
    NotAnObject,
    /// A dashboard response without a string at `meta.folderUid`.
    NoFolderUid,
    /// A dashboard response without an object at `dashboard`.
    NoDashboard,
}

/// The folder that a dashboard response names at `meta.folderUid`.
pub open spec fn folder_uid_of(doc: Json) -> Option<Seq<char>> {
    match doc.member("meta"@) {
        Some(meta) => meta.text_at("folderUid"@),
        None => None,
    }
}

/// A folder, replayable: without the numeric `id` of the source instance and
/// marked to overwrite.
pub open spec fn folder_rule(doc: Json) -> Result<Json, Malformed> {
    if doc is Object {
        Ok(doc.without("id"@).with("overwrite"@, Json::Bool(true)))
    } else {
        Err(Malformed::NotAnObject)
    }
}

/// A dashboard, replayable: `dashboard` without its `id`, no `meta`, the
/// folder it belongs to under `folderUid`, and marked to overwrite.
pub open spec fn dashboard_rule(doc: Json) -> Result<Json, Malformed> {
    if !(doc is Object) {
        Err(Malformed::NotAnObject)
    } else if folder_uid_of(doc) is None {
        Err(Malformed::NoFolderUid)
    } else if !(doc.member("dashboard"@) is Some && doc.member("dashboard"@)->0 is Object) {
        Err(Malformed::NoDashboard)
    } else {
        Ok(
            doc.with("dashboard"@, doc.member("dashboard"@)->0.without("id"@)).without(
                "meta"@,
            ).with("folderUid"@, Json::Text(folder_uid_of(doc)->0)).with(
                "overwrite"@,
                Json::Bool(true),
            ),
        )
    }
}

/// A datasource, replayable: without the `id` and `orgId` of the source
/// instance.
pub open spec fn datasource_rule(doc: Json) -> Result<Json, Malformed> {
    if doc is Object {
        Ok(doc.without("id"@).without("orgId"@))
    } else {
        Err(Malformed::NotAnObject)
    }
}

/// The replayable form of a document of the given kind.
pub open spec fn transform_rule(kind: Kind, doc: Json) -> Result<Json, Malformed> {
    match kind {
        Kind::Folder => folder_rule(doc),
        Kind::Dashboard => dashboard_rule(doc),
        Kind::Datasource => datasource_rule(doc),
    }
}

/// Whether an outcome is the one that the rule gives: a document with that
/// content, or the same reason.
pub open spec fn agrees(r: Result<Document, Malformed>, rule: Result<Json, Malformed>) -> bool {
    match r {
        Ok(doc) => rule == Ok::<Json, Malformed>(doc@),
        Err(why) => rule == Err::<Json, Malformed>(why),
    }
}

/// Makes a fetched folder replayable.
pub fn transform_folder(doc: Document) -> (r: Result<Document, Malformed>)
    ensures
        agrees(r, folder_rule(doc@)),
{
    let mut value = doc.into_value();
    match value.as_object_mut() {
        Some(entries) => {
            remove_field(entries, "id");
            insert_field(entries, "overwrite".to_owned(), flag_value(true));
        },
        None => {
            return Err(Malformed::NotAnObject);
        },
    }
    Ok(Document::of(value))
}

/// Makes a fetched dashboard response replayable.
pub fn transform_dashboard(doc: Document) -> (r: Result<Document, Malformed>)
    ensures
        agrees(r, dashboard_rule(doc@)),
{
    let mut value = doc.into_value();
    let folder_uid = match member(&value, "meta") {
        Some(meta) => text_in(meta, "folderUid"),
        None => None,
    };
    match value.as_object_mut() {
        Some(entries) => {
            let folder_uid = match folder_uid {
                Some(uid) => uid,
                None => {
                    return Err(Malformed::NoFolderUid);
                },
            };
            match field_mut(entries, "dashboard") {
                Some(dashboard) => match dashboard.as_object_mut() {
                    Some(inner) => {
                        remove_field(inner, "id");
                    },
                    None => {
                        return Err(Malformed::NoDashboard);
                    },
                },
                None => {
                    return Err(Malformed::NoDashboard);
                },
            }
            remove_field(entries, "meta");
            insert_field(entries, "folderUid".to_owned(), text_value(folder_uid));
            insert_field(entries, "overwrite".to_owned(), flag_value(true));
        },
        None => {
            return Err(Malformed::NotAnObject);
        },
    }
    Ok(Document::of(value))
}

/// Makes a fetched datasource replayable.
pub fn transform_datasource(doc: Document) -> (r: Result<Document, Malformed>)
    ensures
        agrees(r, datasource_rule(doc@)),
{
    let mut value = doc.into_value();
    match value.as_object_mut() {
        Some(entries) => {
            remove_field(entries, "id");
            remove_field(entries, "orgId");
        },
        None => {
            return Err(Malformed::NotAnObject);
        },
    }
    Ok(Document::of(value))
}

/// Makes a fetched document of the given kind replayable.
pub fn transform(kind: Kind, doc: Document) -> (r: Result<Document, Malformed>)
    ensures
        agrees(r, transform_rule(kind, doc@)),
{
    match kind {
        Kind::Folder => transform_folder(doc),
        Kind::Dashboard => transform_dashboard(doc),
        Kind::Datasource => transform_datasource(doc),
    }
}

/// The keys that the rules name are pairwise different.
pub(crate) proof fn lemma_keys_differ()
    ensures
        "uid"@ != "id"@,
        "uid"@ != "orgId"@,
        "uid"@ != "meta"@,
        "uid"@ != "dashboard"@,
        "uid"@ != "folderUid"@,
        "uid"@ != "overwrite"@,
        "id"@ != "overwrite"@,
        "id"@ != "orgId"@,
        "id"@ != "meta"@,
        "id"@ != "dashboard"@,
        "id"@ != "folderUid"@,
        "meta"@ != "dashboard"@,
        "meta"@ != "folderUid"@,
        "meta"@ != "overwrite"@,
        "dashboard"@ != "folderUid"@,
        "dashboard"@ != "overwrite"@,
        "folderUid"@ != "overwrite"@,
{
    reveal_strlit("uid");
    reveal_strlit("id");
    reveal_strlit("orgId");
    reveal_strlit("meta");
    reveal_strlit("dashboard");
    reveal_strlit("folderUid");
    reveal_strlit("overwrite");
    assert("uid"@.len() == 3);
    assert("id"@.len() == 2);
    assert("orgId"@.len() == 5);
    assert("meta"@.len() == 4);
    assert("dashboard"@.len() == 9);
    assert("folderUid"@.len() == 9);
    assert("overwrite"@.len() == 9);
    assert("dashboard"@[0] == 'd');
    assert("folderUid"@[0] == 'f');
    assert("overwrite"@[0] == 'o');
}

/// A folder is replayable exactly when it is an object. The replayable form
/// has no `id`, is marked to overwrite, and agrees with the fetched folder
/// on every other key.
pub proof fn lemma_folder_replayable(doc: Json)
    ensures
        folder_rule(doc) is Ok <==> doc is Object,
        folder_rule(doc) matches Ok(out) ==> {
            &&& out is Object
            &&& out.member("id"@) is None
            &&& out.member("overwrite"@) == Some(Json::Bool(true))
            &&& forall|key: Seq<char>|
                key != "id"@ && key != "overwrite"@ ==> out.member(key) == doc.member(key)
        },
{
    lemma_keys_differ();
}

/// A dashboard response is replayable exactly when it is an object that
/// names its folder at `meta.folderUid` and holds an object at `dashboard`.
/// The replayable form has no `meta`, no `id` under `dashboard`, the folder
/// under `folderUid`, and is marked to overwrite; everything else is as it
/// was fetched.
pub proof fn lemma_dashboard_replayable(doc: Json)
    ensures
        dashboard_rule(doc) is Ok <==> {
            &&& doc is Object
            &&& folder_uid_of(doc) is Some
            &&& doc.member("dashboard"@) matches Some(inner)
            &&& inner is Object
        },
        dashboard_rule(doc) matches Ok(out) ==> {
            &&& out is Object
            &&& out.member("meta"@) is None
            &&& out.text_at("folderUid"@) == folder_uid_of(doc)
            &&& out.member("overwrite"@) == Some(Json::Bool(true))
            &&& out.member("dashboard"@) matches Some(inner)
            &&& inner is Object
            &&& inner.member("id"@) is None
            &&& forall|key: Seq<char>|
                key != "id"@ ==> inner.member(key) == doc.member("dashboard"@)->0.member(key)
            &&& forall|key: Seq<char>|
                key != "meta"@ && key != "folderUid"@ && key != "overwrite"@ && key
                    != "dashboard"@ ==> out.member(key) == doc.member(key)
        },
{
    lemma_keys_differ();
}

/// A datasource is replayable exactly when it is an object. The replayable
/// form has neither `id` nor `orgId` and agrees with the fetched datasource
/// on every other key.
pub proof fn lemma_datasource_replayable(doc: Json)
    ensures
        datasource_rule(doc) is Ok <==> doc is Object,
        datasource_rule(doc) matches Ok(out) ==> {
            &&& out is Object
            &&& out.member("id"@) is None
            &&& out.member("orgId"@) is None
            &&& forall|key: Seq<char>|
                key != "id"@ && key != "orgId"@ ==> out.member(key) == doc.member(key)
        },
{
}

/// No replayable document carries what belongs to the source instance alone:
/// a top-level `id`, an `orgId` on a datasource, a `meta` on a dashboard.
/// Folders and dashboards are marked to overwrite.
pub proof fn lemma_replayable_is_portable(kind: Kind, doc: Json)
    requires
        transform_rule(kind, doc) is Ok,
    ensures
        ({
            let out = transform_rule(kind, doc)->Ok_0;
            &&& kind != Kind::Dashboard ==> out.member("id"@) is None
            &&& kind == Kind::Datasource ==> out.member("orgId"@) is None
            &&& kind == Kind::Dashboard ==> out.member("meta"@) is None
                && out.member("dashboard"@)->0.member("id"@) is None
            &&& kind != Kind::Datasource ==> out.member("overwrite"@) == Some(Json::Bool(true))
        }),
{
    lemma_keys_differ();
}

/// Making a replayable folder or datasource replayable again changes nothing.
pub proof fn lemma_transform_settles(kind: Kind, doc: Json)
    requires
        kind != Kind::Dashboard,
        transform_rule(kind, doc) is Ok,
    ensures
        transform_rule(kind, transform_rule(kind, doc)->Ok_0) == transform_rule(kind, doc),
{
    lemma_keys_differ();
    let once = transform_rule(kind, doc)->Ok_0;
    let twice = transform_rule(kind, once)->Ok_0;
    assert(once->Object_0 =~= twice->Object_0);
}

} // verus!
