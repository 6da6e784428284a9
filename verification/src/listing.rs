//! Reading the identifiers out of a listing that an instance returned.

use crate::document::{text_in, Document};
use crate::json::{json_of, parsed, Json};
use vstd::prelude::*;

verus! {

/// The `uid`s of the elements that hold a string there, in their order.
pub open spec fn uids_in(items: Seq<Json>) -> Seq<Seq<char>>
    decreases items.len(),
{
    if items.len() == 0 {
        Seq::empty()
    } else {
        match items.last().text_at("uid"@) {
            Some(uid) => uids_in(items.drop_last()).push(uid),
            None => uids_in(items.drop_last()),
        }
    }
}

/// The identifiers that a listing names: those of its elements where it is an
/// array, none otherwise.
pub open spec fn listed(listing: Json) -> Seq<Seq<char>> {
    uids_in(listing.items())
}

/// The identifiers that a response to a listing request names. A request
/// that failed, and a body that is not JSON, name none.
pub open spec fn listed_in(body: Option<&str>) -> Seq<Seq<char>> {
    match body {
        Some(text) => match parsed(text@) {
            Some(listing) => listed(listing),
            None => Seq::empty(),
        },
        None => Seq::empty(),
    }
}

/// The identifiers that `listing` names.
pub fn uids_of(listing: &Document) -> (uids: Vec<String>)
    ensures
        uids.deep_view() == listed(listing@),
{
    let mut uids: Vec<String> = Vec::new();
    let items = match listing.value().as_array() {
        Some(items) => items,
        None => {
            assert(uids.deep_view() =~= Seq::<Seq<char>>::empty());
            return uids;
        },
    };
    let ghost elements = listing@.items();
    assert(uids.deep_view() =~= uids_in(elements.take(0)));
    let mut i: usize = 0;
    while i < items.len()
        invariant
            i <= items.len(),
            elements.len() == items@.len(),
            forall|k: int| 0 <= k < items@.len() ==> elements[k] == json_of(#[trigger] items@[k]),
            uids.deep_view() == uids_in(elements.take(i as int)),
        decreases items.len() - i,
    {
        let ghost before = uids.deep_view();
        assert(elements.take(i + 1).drop_last() =~= elements.take(i as int));
        match text_in(&items[i], "uid") {
            Some(uid) => {
                uids.push(uid);
                assert(uids.deep_view() =~= before.push(uid@));
            },
            None => {},
        }
        i += 1;
    }
    assert(elements.take(i as int) =~= elements);
    uids
}

/// The identifiers that the response to a listing request names; `None`
/// stands for a request that failed.
pub fn list_uids(body: Option<&str>) -> (uids: Vec<String>)
    ensures
        uids.deep_view() == listed_in(body),
{
    let listing = match body {
        Some(text) => Document::parse(text),
        None => None,
    };
    match listing {
        Some(listing) => uids_of(&listing),
        None => {
            let uids: Vec<String> = Vec::new();
            assert(uids.deep_view() =~= Seq::<Seq<char>>::empty());
            uids
        },
    }
}

} // verus!
