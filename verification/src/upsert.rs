//! Deciding, for a document about to be imported, whether the destination is
//! asked to create it or to update it, and where.

use crate::kind::Kind;
use crate::route::{collection_endpoint, collection_url, entity_endpoint, entity_url};
use vstd::prelude::*;

verus! {

/// How a document is written to the destination.
#[derive(Debug, Clone, Copy, PartialEq, Eq, Structural)]
pub enum Method {
    /// Create.
    Post,
    /// Update.
    Put,
}

/// The write that imports one document: how, and where.
#[derive(Debug, PartialEq, Eq)]
pub struct Route {
    pub method: Method,
    pub endpoint: String,
}

impl View for Route {
    type V = (Method, Seq<char>);

    open spec fn view(&self) -> (Method, Seq<char>) {
        (self.method, self.endpoint@)
    }
}

/// The status with which an instance answers that it has what was asked for.
pub const STATUS_OK: u16 = 200;

/// Whether the answer to a probe shows that the entity is there. A probe that
/// failed (`None`) and any status but 200 show that it is not.
pub open spec fn found(probe: Option<u16>) -> bool {
    probe == Some(STATUS_OK)
}

/// The write that imports the entity `uid` of `kind` on `host`, given
/// whether the destination has it already. Dashboards are always posted to
/// the one address that creates or updates; a folder or datasource is put to
/// its own address where it exists and posted to the collection where not.
pub open spec fn resolution(host: Seq<char>, kind: Kind, uid: Seq<char>, exists: bool) -> (
    Method,
    Seq<char>,
) {
    if kind != Kind::Dashboard && exists {
        (Method::Put, entity_url(host, kind, uid))
    } else {
        (Method::Post, collection_url(host, kind))
    }
}

/// Whether `uid` is among `known`.
pub fn is_known(known: &Vec<String>, uid: &str) -> (r: bool)
    ensures
        r == known.deep_view().contains(uid@),
{
    let wanted = uid.to_owned();
    let mut i: usize = 0;
    while i < known.len()
        invariant
            i <= known.len(),
            wanted@ == uid@,
            forall|k: int| 0 <= k < i ==> known.deep_view()[k] != uid@,
        decreases known.len() - i,
    {
        if known[i] == wanted {
            assert(known.deep_view()[i as int] == uid@);
            return true;
        }
        i += 1;
    }
    false
}

fn route(host: &str, kind: Kind, uid: &str, exists: bool) -> (r: Route)
    ensures
        r@ == resolution(host@, kind, uid@, exists),
{
    match kind {
        Kind::Dashboard => Route {
            method: Method::Post,
            endpoint: collection_endpoint(host, kind),
        },
        _ => if exists {
            Route { method: Method::Put, endpoint: entity_endpoint(host, kind, uid) }
        } else {
            Route { method: Method::Post, endpoint: collection_endpoint(host, kind) }
        },
    }
}

/// The write that imports the folder `uid`, given the answer to the probe for
/// it on the destination: the status of the response, or `None` where the
/// probe failed.
pub fn resolve_folder(host: &str, uid: &str, probe: Option<u16>) -> (r: Route)
    ensures
        r@ == resolution(host@, Kind::Folder, uid@, found(probe)),
{
    let exists = match probe {
        Some(status) => status == STATUS_OK,
        None => false,
    };
    route(host, Kind::Folder, uid, exists)
}

/// The write that imports the datasource `uid`, given the identifiers of the
/// datasources that the destination listed before the import began.
pub fn resolve_datasource(host: &str, uid: &str, known: &Vec<String>) -> (r: Route)
    ensures
        r@ == resolution(host@, Kind::Datasource, uid@, known.deep_view().contains(uid@)),
{
    let exists = is_known(known, uid);
    route(host, Kind::Datasource, uid, exists)
}

/// The write that imports a dashboard: the destination itself creates or
/// updates by the `uid` in the document.
pub fn resolve_dashboard(host: &str) -> (r: Route)
    ensures
        r@ == (Method::Post, collection_url(host@, Kind::Dashboard)),
        forall|uid: Seq<char>, exists: bool|
            r@ == #[trigger] resolution(host@, Kind::Dashboard, uid, exists),
{
    route(host, Kind::Dashboard, "", false)
}

/// Importing one datasource twice creates it once and then updates it: while
/// the destination does not list `uid` the write is a create, and once the
/// create has added it to what the destination lists, the write is an update
/// of that datasource.
pub proof fn lemma_upsert_converges(host: Seq<char>, uid: Seq<char>, known: Seq<Seq<char>>)
    requires
        !known.contains(uid),
    ensures
        resolution(host, Kind::Datasource, uid, known.contains(uid)) == (
            Method::Post,
            collection_url(host, Kind::Datasource),
        ),
        resolution(host, Kind::Datasource, uid, known.push(uid).contains(uid)) == (
            Method::Put,
            entity_url(host, Kind::Datasource, uid),
        ),
{
    assert(known.push(uid)[known.len() as int] == uid);
}

/// A folder is updated only where the probe for it was answered with 200:
/// any other status, and a probe that failed, lead to a create.
pub proof fn lemma_folder_probe(host: Seq<char>, uid: Seq<char>, probe: Option<u16>)
    ensures
        resolution(host, Kind::Folder, uid, found(probe)).0 == Method::Put <==> probe == Some(
            200u16,
        ),
        resolution(host, Kind::Folder, uid, found(probe)).0 == Method::Post <==> probe != Some(
            200u16,
        ),
{
}

} // verus!
