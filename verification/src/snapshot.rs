//! Export: from what the source instance answered to the snapshot that is
//! kept on disk, and where it is kept.

use crate::document::Document;
use crate::json::{json_of, parsed, rendered, Json};
use crate::kind::Kind;
use crate::transform::{datasource_rule, transform, transform_datasource, transform_rule, Malformed};
use vstd::prelude::*;

verus! {

/// Why an entity was left out of an export or an import.
#[derive(Debug, Clone, Copy, PartialEq, Eq, Structural)]
pub enum Skipped {
    /// The request for the entity failed.
    Unreachable,
    /// What was read is not JSON.
    NotJson,
    /// The document lacks what its kind must have.
    Malformed(Malformed),
    /// The document lacks a string `uid` to go by.
    Unnamed,
    /// The document could not be written as text.
    Unwritable,
}

/// The snapshot of one entity: the `uid` it is filed under and its text.
#[derive(Debug, PartialEq, Eq)]
pub struct Snapshot {
    pub uid: String,
    pub text: String,
}

impl View for Snapshot {
    type V = (Seq<char>, Seq<char>);

    open spec fn view(&self) -> (Seq<char>, Seq<char>) {
        (self.uid@, self.text@)
    }
}

/// The name of the directory that holds the snapshots of a kind.
pub open spec fn directory_name(kind: Kind) -> Seq<char> {
    match kind {
        Kind::Folder => "folders"@,
        Kind::Dashboard => "dashboards"@,
        Kind::Datasource => "datasources"@,
    }
}

/// The directory under `base` that holds the snapshots of a kind.
pub open spec fn directory_path(base: Seq<char>, kind: Kind) -> Seq<char> {
    base + "/"@ + directory_name(kind)
}

/// The file in `directory` that holds the snapshot of `uid`.
pub open spec fn file_path(directory: Seq<char>, uid: Seq<char>) -> Seq<char> {
    directory + "/"@ + uid + ".json"@
}

/// The text kept for a fetched document of a kind: its replayable form,
/// written as JSON.
pub open spec fn snapshot_text(kind: Kind, doc: Json) -> Result<Seq<char>, Skipped> {
    match transform_rule(kind, doc) {
        Ok(out) => match rendered(out) {
            Some(text) => Ok(text),
            None => Err(Skipped::Unwritable),
        },
        Err(why) => Err(Skipped::Malformed(why)),
    }
}

/// The text kept for what the source answered to the request for one entity;
/// `None` stands for a request that failed.
pub open spec fn export_rule(kind: Kind, response: Option<&str>) -> Result<Seq<char>, Skipped> {
    match response {
        Some(body) => match parsed(body@) {
            Some(doc) => snapshot_text(kind, doc),
            None => Err(Skipped::NotJson),
        },
        None => Err(Skipped::Unreachable),
    }
}

/// What is kept of one element of the datasource listing: the `uid` and the
/// text of its replayable form. Nothing is kept of an element that is not an
/// object, has no string `uid`, or cannot be written.
pub open spec fn datasource_entry(item: Json) -> Option<(Seq<char>, Seq<char>)> {
    match datasource_rule(item) {
        Ok(out) => match (out.text_at("uid"@), rendered(out)) {
            (Some(uid), Some(text)) => Some((uid, text)),
            _ => None,
        },
        Err(_) => None,
    }
}

/// What is kept of the elements of the datasource listing, in their order.
pub open spec fn datasource_entries(items: Seq<Json>) -> Seq<(Seq<char>, Seq<char>)>
    decreases items.len(),
{
    if items.len() == 0 {
        Seq::empty()
    } else {
        match datasource_entry(items.last()) {
            Some(entry) => datasource_entries(items.drop_last()).push(entry),
            None => datasource_entries(items.drop_last()),
        }
    }
}

/// What is kept of the answer to the request that lists the datasources.
/// A request that failed, a body that is not JSON and one that is not an
/// array leave nothing to keep.
pub open spec fn datasource_export(response: Option<&str>) -> Seq<(Seq<char>, Seq<char>)> {
    match response {
        Some(body) => match parsed(body@) {
            Some(listing) => datasource_entries(listing.items()),
            None => Seq::empty(),
        },
        None => Seq::empty(),
    }
}

/// The snapshots as pairs of `uid` and text.
pub open spec fn views(snapshots: Seq<Snapshot>) -> Seq<(Seq<char>, Seq<char>)> {
    snapshots.map_values(|snapshot: Snapshot| snapshot@)
}

/// Whether an outcome is the snapshot of `uid` with the text that the rule
/// gives, or the reason that the rule gives for leaving the entity out.
pub open spec fn exported(
    r: Result<Snapshot, Skipped>,
    uid: Seq<char>,
    rule: Result<Seq<char>, Skipped>,
) -> bool {
    match r {
        Ok(snapshot) => rule == Ok::<Seq<char>, Skipped>(snapshot.text@) && snapshot.uid@ == uid,
        Err(why) => rule == Err::<Seq<char>, Skipped>(why),
    }
}

/// The directory under `base` that holds the snapshots of `kind`.
pub fn directory(base: &str, kind: Kind) -> (path: String)
    ensures
        path@ == directory_path(base@, kind),
{
    let name = match kind {
        Kind::Folder => "folders",
        Kind::Dashboard => "dashboards",
        Kind::Datasource => "datasources",
    };
    base.to_owned().concat("/").concat(name)
}

/// The file in `directory` that holds the snapshot of `uid`.
pub fn snapshot_file(directory: &str, uid: &str) -> (path: String)
    ensures
        path@ == file_path(directory@, uid@),
{
    directory.to_owned().concat("/").concat(uid).concat(".json")
}

/// The snapshot of the fetched document `doc`, filed under `uid`.
pub fn snapshot(kind: Kind, uid: &str, doc: Document) -> (r: Result<Snapshot, Skipped>)
    ensures
        exported(r, uid@, snapshot_text(kind, doc@)),
{
    match transform(kind, doc) {
        Ok(out) => match out.render() {
            Some(text) => Ok(Snapshot { uid: uid.to_owned(), text }),
            None => Err(Skipped::Unwritable),
        },
        Err(why) => Err(Skipped::Malformed(why)),
    }
}

/// The snapshot of the entity `uid`, from what the source answered to the
/// request for it; `None` stands for a request that failed.
pub fn export_entity(kind: Kind, uid: &str, response: Option<&str>) -> (r: Result<
    Snapshot,
    Skipped,
>)
    ensures
        exported(r, uid@, export_rule(kind, response)),
{
    match response {
        Some(body) => match Document::parse(body) {
            Some(doc) => snapshot(kind, uid, doc),
            None => Err(Skipped::NotJson),
        },
        None => Err(Skipped::Unreachable),
    }
}

/// The snapshots of the datasources that `listing` holds: the source returns
/// them whole in the listing, so none is fetched on its own.
pub fn snapshots_of(listing: &Document) -> (r: Vec<Snapshot>)
    ensures
        views(r@) == datasource_entries(listing@.items()),
{
    let mut kept: Vec<Snapshot> = Vec::new();
    let items = match listing.value().as_array() {
        Some(items) => items,
        None => {
            assert(views(kept@) =~= Seq::empty());
            return kept;
        },
    };
    let ghost elements = listing@.items();
    assert(views(kept@) =~= datasource_entries(elements.take(0)));
    let mut i: usize = 0;
    while i < items.len()
        invariant
            i <= items.len(),
            elements.len() == items@.len(),
            forall|k: int| 0 <= k < items@.len() ==> elements[k] == json_of(#[trigger] items@[k]),
            views(kept@) == datasource_entries(elements.take(i as int)),
        decreases items.len() - i,
    {
        let ghost before = kept@;
        assert(elements.take(i + 1).drop_last() =~= elements.take(i as int));
        let item = Document::of(items[i].clone());
        match transform_datasource(item) {
            Ok(out) => match out.text_at("uid") {
                Some(uid) => match out.render() {
                    Some(text) => {
                        let snapshot = Snapshot { uid, text };
                        kept.push(snapshot);
                        assert(views(kept@) =~= views(before).push(snapshot@));
                    },
                    None => {},
                },
                None => {},
            },
            Err(_) => {},
        }
        i += 1;
    }
    assert(elements.take(i as int) =~= elements);
    kept
}

/// The snapshots of the datasources, from what the source answered to the
/// request that lists them; `None` stands for a request that failed.
pub fn export_datasources(response: Option<&str>) -> (r: Vec<Snapshot>)
    ensures
        views(r@) == datasource_export(response),
{
    let listing = match response {
        Some(body) => Document::parse(body),
        None => None,
    };
    match listing {
        Some(listing) => snapshots_of(&listing),
        None => {
            let kept: Vec<Snapshot> = Vec::new();
            assert(views(kept@) =~= Seq::empty());
            kept
        },
    }
}

/// The files of a directory after a snapshot has been saved there: the file
/// of its `uid` holds its text, whatever it held before, and no other file
/// changes.
pub open spec fn saved(
    files: Map<Seq<char>, Seq<char>>,
    directory: Seq<char>,
    entry: (Seq<char>, Seq<char>),
) -> Map<Seq<char>, Seq<char>> {
    files.insert(file_path(directory, entry.0), entry.1)
}

/// The files after the snapshots have been saved one after the other.
pub open spec fn saved_all(
    files: Map<Seq<char>, Seq<char>>,
    directory: Seq<char>,
    entries: Seq<(Seq<char>, Seq<char>)>,
) -> Map<Seq<char>, Seq<char>>
    decreases entries.len(),
{
    if entries.len() == 0 {
        files
    } else {
        saved(saved_all(files, directory, entries.drop_last()), directory, entries.last())
    }
}

/// Saving snapshots changes the files they are filed under and no others:
/// the outcome is the old files overlaid with what the snapshots alone write.
proof fn lemma_saved_all_overlays(
    files: Map<Seq<char>, Seq<char>>,
    directory: Seq<char>,
    entries: Seq<(Seq<char>, Seq<char>)>,
)
    ensures
        saved_all(files, directory, entries) == files.union_prefer_right(
            saved_all(Map::empty(), directory, entries),
        ),
    decreases entries.len(),
{
    let written = saved_all(Map::empty(), directory, entries);
    if entries.len() == 0 {
        assert(files =~= files.union_prefer_right(written));
    } else {
        lemma_saved_all_overlays(files, directory, entries.drop_last());
        assert(saved_all(files, directory, entries) =~= files.union_prefer_right(written));
    }
}

/// Export is idempotent: the snapshots of an export, saved a second time,
/// leave every file as the first run left it. What is saved for an entity is
/// a function of what the source answered, so a second export against an
/// unchanged source saves the same snapshots again.
pub proof fn lemma_export_is_idempotent(
    files: Map<Seq<char>, Seq<char>>,
    directory: Seq<char>,
    entries: Seq<(Seq<char>, Seq<char>)>,
)
    ensures
        saved_all(saved_all(files, directory, entries), directory, entries) == saved_all(
            files,
            directory,
            entries,
        ),
{
    let once = saved_all(files, directory, entries);
    let written = saved_all(Map::empty(), directory, entries);
    lemma_saved_all_overlays(files, directory, entries);
    lemma_saved_all_overlays(once, directory, entries);
    assert(once.union_prefer_right(written) =~= once);
}

/// Export is repeatable: whatever two exports make of the same answer of the
/// source is the same, snapshot for snapshot and character for character, and
/// they leave the same entities out for the same reasons.
pub proof fn lemma_export_is_repeatable(
    kind: Kind,
    uid: Seq<char>,
    response: Option<&str>,
    first: Result<Snapshot, Skipped>,
    second: Result<Snapshot, Skipped>,
)
    requires
        exported(first, uid, export_rule(kind, response)),
        exported(second, uid, export_rule(kind, response)),
    ensures
        first is Ok <==> second is Ok,
        first is Ok ==> first->Ok_0@ == second->Ok_0@,
        first is Err ==> first == second,
{
}

/// One entity does not decide for another: what is kept of a datasource
/// listing is what is kept of its elements one by one, so an element that is
/// left out takes no other with it.
pub proof fn lemma_entries_are_kept_one_by_one(items: Seq<Json>, i: int)
    requires
        0 <= i < items.len(),
    ensures
        datasource_entry(items[i]) matches Some(entry) ==> datasource_entries(items).contains(
            entry,
        ),
    decreases items.len(),
{
    let rest = items.drop_last();
    if i == items.len() - 1 {
        if let Some(entry) = datasource_entry(items[i]) {
            let kept = datasource_entries(items);
            assert(kept[kept.len() - 1] == entry);
        }
    } else {
        lemma_entries_are_kept_one_by_one(rest, i);
        if let Some(entry) = datasource_entry(items[i]) {
            let k = choose|k: int|
                0 <= k < datasource_entries(rest).len() && datasource_entries(rest)[k] == entry;
            assert(datasource_entries(items)[k] == entry);
        }
    }
}

} // verus!
