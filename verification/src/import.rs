//! Import: from a snapshot on disk to the write that replays it on the
//! destination. A snapshot is sent as it was saved; import only decides how
//! and where.

use crate::document::{member, text_in, Document};
use crate::json::{parsed, Json};
use crate::kind::Kind;
use crate::listing::{list_uids, listed_in};
use crate::route::{collection_url, entity_url};
use crate::snapshot::{snapshot_text, Skipped};
use crate::transform::{folder_rule, lemma_keys_differ, transform_rule};
use crate::upsert::{
    found, resolution, resolve_dashboard, resolve_datasource, resolve_folder, Method, Route,
};
use vstd::prelude::*;

verus! {

/// The `uid` that a snapshot of a kind goes by: the one at the top of a
/// folder or datasource, the one under `dashboard` of a dashboard.
pub open spec fn identity(kind: Kind, doc: Json) -> Option<Seq<char>> {
    match kind {
        Kind::Dashboard => match doc.member("dashboard"@) {
            Some(inner) => inner.text_at("uid"@),
            None => None,
        },
        _ => doc.text_at("uid"@),
    }
}

/// What import makes of the text of a snapshot: the `uid` it goes by and the
/// document to send, or the reason to leave it out.
pub open spec fn import_rule(kind: Kind, text: Seq<char>) -> Result<(Seq<char>, Json), Skipped> {
    match parsed(text) {
        Some(doc) => match identity(kind, doc) {
            Some(uid) => Ok((uid, doc)),
            None => Err(Skipped::Unnamed),
        },
        None => Err(Skipped::NotJson),
    }
}

/// The write that imports the snapshot `text` of a datasource, given the
/// identifiers that the destination listed: how, where, and the document to
/// send, or the reason to leave the snapshot out.
pub open spec fn datasource_upload(host: Seq<char>, known: Seq<Seq<char>>, text: Seq<char>) -> Result<
    ((Method, Seq<char>), Json),
    Skipped,
> {
    match import_rule(Kind::Datasource, text) {
        Ok((uid, doc)) => Ok((resolution(host, Kind::Datasource, uid, known.contains(uid)), doc)),
        Err(why) => Err(why),
    }
}

/// Whether an outcome is the write that the rule gives, or the reason that
/// the rule gives for leaving the snapshot out.
pub open spec fn planned(
    r: Result<Upload, Skipped>,
    rule: Result<((Method, Seq<char>), Json), Skipped>,
) -> bool {
    match r {
        Ok(upload) => rule == Ok::<((Method, Seq<char>), Json), Skipped>(upload@),
        Err(why) => rule == Err::<((Method, Seq<char>), Json), Skipped>(why),
    }
}

/// A snapshot read back for import: the document and the `uid` it goes by.
#[derive(Debug, PartialEq)]
pub struct Entry {
    pub uid: String,
    pub body: Document,
}

impl View for Entry {
    type V = (Seq<char>, Json);

    open spec fn view(&self) -> (Seq<char>, Json) {
        (self.uid@, self.body@)
    }
}

/// One write against the destination: how, where, and the document to send.
#[derive(Debug, PartialEq)]
pub struct Upload {
    pub route: Route,
    pub body: Document,
}

impl View for Upload {
    type V = ((Method, Seq<char>), Json);

    open spec fn view(&self) -> ((Method, Seq<char>), Json) {
        (self.route@, self.body@)
    }
}

/// What the destination made of a write.
#[derive(Debug, Clone, Copy, PartialEq, Eq, Structural)]
pub enum Outcome {
    /// Answered with a status from 200 to 299.
    Imported,
    /// Answered with any other status.
    Rejected(u16),
    /// Not answered: the request failed.
    Unreachable,
}

/// How the answer to a write counts; `None` stands for a request that failed.
pub open spec fn outcome_of(response: Option<u16>) -> Outcome {
    match response {
        Some(status) => if 200 <= status <= 299 {
            Outcome::Imported
        } else {
            Outcome::Rejected(status)
        },
        None => Outcome::Unreachable,
    }
}

/// The `uid` that the snapshot `doc` of `kind` goes by.
pub fn uid_of(kind: Kind, doc: &Document) -> (r: Option<String>)
    ensures
        match r {
            Some(uid) => identity(kind, doc@) == Some(uid@),
            None => identity(kind, doc@) is None,
        },
{
    match kind {
        Kind::Dashboard => match member(doc.value(), "dashboard") {
            Some(inner) => text_in(inner, "uid"),
            None => None,
        },
        _ => doc.text_at("uid"),
    }
}

/// Reads the text of a snapshot of `kind` back for import.
pub fn read_snapshot(kind: Kind, text: &str) -> (r: Result<Entry, Skipped>)
    ensures
        match r {
            Ok(entry) => import_rule(kind, text@) == Ok::<(Seq<char>, Json), Skipped>(entry@),
            Err(why) => import_rule(kind, text@) == Err::<(Seq<char>, Json), Skipped>(why),
        },
{
    match Document::parse(text) {
        Some(body) => match uid_of(kind, &body) {
            Some(uid) => Ok(Entry { uid, body }),
            None => Err(Skipped::Unnamed),
        },
        None => Err(Skipped::NotJson),
    }
}

/// The write that imports a folder, given the answer to the probe for it on
/// the destination: the status of the response, or `None` where the probe
/// failed.
pub fn import_folder(host: &str, entry: Entry, probe: Option<u16>) -> (r: Upload)
    ensures
        r.route@ == resolution(host@, Kind::Folder, entry.uid@, found(probe)),
        r.body@ == entry.body@,
{
    let route = resolve_folder(host, entry.uid.as_str(), probe);
    Upload { route, body: entry.body }
}

/// The write that imports a dashboard.
pub fn import_dashboard(host: &str, entry: Entry) -> (r: Upload)
    ensures
        r.route@ == resolution(host@, Kind::Dashboard, entry.uid@, false),
        r.body@ == entry.body@,
{
    let route = resolve_dashboard(host);
    Upload { route, body: entry.body }
}

/// The write that imports a datasource, given the identifiers of the
/// datasources that the destination listed before the import began.
pub fn import_datasource(host: &str, entry: Entry, known: &Vec<String>) -> (r: Upload)
    ensures
        r.route@ == resolution(
            host@,
            Kind::Datasource,
            entry.uid@,
            known.deep_view().contains(entry.uid@),
        ),
        r.body@ == entry.body@,
{
    let route = resolve_datasource(host, entry.uid.as_str(), known);
    Upload { route, body: entry.body }
}

/// The writes that import the snapshots of the datasources, one outcome for
/// each snapshot and in their order. The destination is asked once, before
/// any write, which datasources it has: `listing` is its answer, `None`
/// where the request failed, and then every datasource is created.
pub fn import_datasources(host: &str, listing: Option<&str>, snapshots: &Vec<String>) -> (r: Vec<
    Result<Upload, Skipped>,
>)
    ensures
        r@.len() == snapshots@.len(),
        forall|i: int|
            0 <= i < r@.len() ==> planned(
                #[trigger] r@[i],
                datasource_upload(host@, listed_in(listing), snapshots@[i]@),
            ),
{
    let known = list_uids(listing);
    let mut planned_writes: Vec<Result<Upload, Skipped>> = Vec::new();
    let mut i: usize = 0;
    while i < snapshots.len()
        invariant
            i <= snapshots.len(),
            planned_writes@.len() == i,
            known.deep_view() == listed_in(listing),
            forall|k: int|
                0 <= k < i ==> planned(
                    #[trigger] planned_writes@[k],
                    datasource_upload(host@, listed_in(listing), snapshots@[k]@),
                ),
        decreases snapshots.len() - i,
    {
        let next = match read_snapshot(Kind::Datasource, snapshots[i].as_str()) {
            Ok(entry) => Ok(import_datasource(host, entry, &known)),
            Err(why) => Err(why),
        };
        planned_writes.push(next);
        i += 1;
    }
    planned_writes
}

/// How the answer to a write counts; `None` stands for a request that failed.
pub fn outcome(response: Option<u16>) -> (r: Outcome)
    ensures
        r == outcome_of(response),
{
    match response {
        Some(status) => if 200 <= status && status <= 299 {
            Outcome::Imported
        } else {
            Outcome::Rejected(status)
        },
        None => Outcome::Unreachable,
    }
}

/// What is exported is imported under the `uid` it had: making a document
/// replayable leaves the `uid` that import goes by as it was.
pub proof fn lemma_replay_keeps_identity(kind: Kind, doc: Json)
    requires
        transform_rule(kind, doc) is Ok,
    ensures
        identity(kind, transform_rule(kind, doc)->Ok_0) == identity(kind, doc),
{
    lemma_keys_differ();
}

/// Round trip of a folder. Where the snapshot of a fetched folder reads back
/// as the document that was saved, importing it into a destination that does
/// not have the folder is one create, under the `uid` of the fetched folder,
/// of a document that has no `id`, is marked to overwrite, and is the fetched
/// folder in everything else.
pub proof fn lemma_folder_round_trip(
    host: Seq<char>,
    fetched: Json,
    text: Seq<char>,
    probe: Option<u16>,
)
    requires
        snapshot_text(Kind::Folder, fetched) == Ok::<Seq<char>, Skipped>(text),
        parsed(text) == Some(folder_rule(fetched)->Ok_0),
        fetched.text_at("uid"@) is Some,
        !found(probe),
    ensures
        import_rule(Kind::Folder, text) is Ok,
        ({
            let (uid, body) = import_rule(Kind::Folder, text)->Ok_0;
            &&& uid == fetched.text_at("uid"@)->0
            &&& resolution(host, Kind::Folder, uid, found(probe)) == (
                Method::Post,
                collection_url(host, Kind::Folder),
            )
            &&& body.member("id"@) is None
            &&& body.member("overwrite"@) == Some(Json::Bool(true))
            &&& forall|key: Seq<char>|
                key != "id"@ && key != "overwrite"@ ==> body.member(key) == fetched.member(key)
        }),
{
    lemma_keys_differ();
}

/// Importing a datasource converges: against a destination that does not
/// list its `uid` the snapshot is created, and against one that lists it, as
/// the destination does once the create has succeeded, the same snapshot is
/// updated at its own address. The document sent is the same both times.
pub proof fn lemma_import_converges(host: Seq<char>, known: Seq<Seq<char>>, text: Seq<char>)
    requires
        import_rule(Kind::Datasource, text) is Ok,
        !known.contains(import_rule(Kind::Datasource, text)->Ok_0.0),
    ensures
        ({
            let (uid, doc) = import_rule(Kind::Datasource, text)->Ok_0;
            &&& datasource_upload(host, known, text) == Ok::<((Method, Seq<char>), Json), Skipped>(
                ((Method::Post, collection_url(host, Kind::Datasource)), doc),
            )
            &&& datasource_upload(host, known.push(uid), text) == Ok::<
                ((Method, Seq<char>), Json),
                Skipped,
            >(((Method::Put, entity_url(host, Kind::Datasource, uid)), doc))
        }),
{
    let (uid, doc) = import_rule(Kind::Datasource, text)->Ok_0;
    assert(known.push(uid)[known.len() as int] == uid);
}

/// A write with any answer has one outcome, and it counts as imported
/// exactly when the destination answered with a status from 200 to 299.
pub proof fn lemma_outcome(response: Option<u16>)
    ensures
        outcome_of(response) == Outcome::Imported <==> (response matches Some(status) && 200
            <= status <= 299),
        outcome_of(response) == Outcome::Unreachable <==> response is None,
{
}

} // verus!
