//! Where on an instance each kind of entity is listed, read and written.

use crate::kind::Kind;
use vstd::prelude::*;

verus! {

/// The path that lists the entities of a kind.
pub open spec fn listing_path(kind: Kind) -> Seq<char> {
    match kind {
        Kind::Folder => "/api/folders"@,
        Kind::Dashboard => "/api/search?type=dash-db"@,
        Kind::Datasource => "/api/datasources"@,
    }
}

/// The path under which the entities of a kind are found by `uid`.
pub open spec fn entity_prefix(kind: Kind) -> Seq<char> {
    match kind {
        Kind::Folder => "/api/folders/"@,
        Kind::Dashboard => "/api/dashboards/uid/"@,
        Kind::Datasource => "/api/datasources/uid/"@,
    }
}

/// The path that takes a new entity of a kind.
pub open spec fn collection_path(kind: Kind) -> Seq<char> {
    match kind {
        Kind::Folder => "/api/folders"@,
        Kind::Dashboard => "/api/dashboards/db"@,
        Kind::Datasource => "/api/datasources"@,
    }
}

/// The address that lists the entities of a kind on `host`.
pub open spec fn listing_url(host: Seq<char>, kind: Kind) -> Seq<char> {
    host + listing_path(kind)
}

/// The address of the entity `uid` of a kind on `host`.
pub open spec fn entity_url(host: Seq<char>, kind: Kind, uid: Seq<char>) -> Seq<char> {
    host + entity_prefix(kind) + uid
}

/// The address that takes a new entity of a kind on `host`.
pub open spec fn collection_url(host: Seq<char>, kind: Kind) -> Seq<char> {
    host + collection_path(kind)
}

/// The address to list the entities of `kind` on `host`.
pub fn listing_endpoint(host: &str, kind: Kind) -> (url: String)
    ensures
        url@ == listing_url(host@, kind),
{
    let path = match kind {
        Kind::Folder => "/api/folders",
        Kind::Dashboard => "/api/search?type=dash-db",
        Kind::Datasource => "/api/datasources",
    };
    host.to_owned().concat(path)
}

/// The address of the entity `uid` of `kind` on `host`.
pub fn entity_endpoint(host: &str, kind: Kind, uid: &str) -> (url: String)
    ensures
        url@ == entity_url(host@, kind, uid@),
{
    let prefix = match kind {
        Kind::Folder => "/api/folders/",
        Kind::Dashboard => "/api/dashboards/uid/",
        Kind::Datasource => "/api/datasources/uid/",
    };
    host.to_owned().concat(prefix).concat(uid)
}

/// The address that takes a new entity of `kind` on `host`.
pub fn collection_endpoint(host: &str, kind: Kind) -> (url: String)
    ensures
        url@ == collection_url(host@, kind),
{
    let path = match kind {
        Kind::Folder => "/api/folders",
        Kind::Dashboard => "/api/dashboards/db",
        Kind::Datasource => "/api/datasources",
    };
    host.to_owned().concat(path)
}

} // verus!
