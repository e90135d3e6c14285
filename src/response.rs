//! What the library makes of the decoded parts of each answer.

use vstd::prelude::*;

use crate::item::{is_detail_shape_of, WorkshopItem, WorkshopSearchItem};
use crate::workshop::Error;

verus! {

/// One entry of a detail answer: its `result` code where that is an integer,
/// and the item where the entry could be decoded as one.
#[derive(Clone, Debug)]
pub struct DetailEntry {
    pub result: Option<i64>,
    pub item: Option<WorkshopItem>,
}

/// The entry reports an item that exists; deleted, banned and missing items
/// carry other codes.
pub open spec fn is_found(e: DetailEntry) -> bool {
    e.result == Some(1i64)
}

/// Every entry that reports an existing item could be decoded.
pub open spec fn found_entries_decoded(entries: Seq<DetailEntry>) -> bool {
    forall|i: int| 0 <= i < entries.len() && is_found(#[trigger] entries[i]) ==> entries[i].item is Some
}

/// The items of the entries that report an existing item, in answer order.
pub open spec fn found_items(entries: Seq<DetailEntry>) -> Seq<WorkshopItem>
    decreases entries.len(),
{
    if entries.len() == 0 {
        Seq::empty()
    } else {
        let rest = found_items(entries.drop_last());
        let e = entries.last();
        if is_found(e) && e.item is Some {
            rest.push(e.item->0)
        } else {
            rest
        }
    }
}

/// The items of a detail answer. Entries for items that no longer exist are
/// left out; an entry that reports an existing item but could not be decoded
/// fails the whole answer with `RequestError`.
pub fn published_items(entries: Vec<DetailEntry>) -> (r: Result<Vec<WorkshopItem>, Error>)
    ensures
        r is Ok <==> found_entries_decoded(entries@),
        r matches Ok(items) ==> items@ == found_items(entries@),
        r matches Err(e) ==> e is RequestError,
{
    let ghost all = entries@;
    let mut items: Vec<WorkshopItem> = Vec::new();
    for e in it: entries.into_iter()
        invariant
            it.seq() == all,
            found_entries_decoded(all.take(it.index())),
            items@ == found_items(all.take(it.index())),
    {
        let ghost k = it.index();
        assert(all[k] == e);
        assert(all.take(k + 1).drop_last() =~= all.take(k));
        let found = match e.result {
            Some(code) => code == 1,
            None => false,
        };
        if found {
            match e.item {
                Some(item) => {
                    items.push(item);
                },
                None => {
                    return Err(
                        Error::RequestError(
                            String::from_str("an entry for an existing item could not be decoded"),
                        ),
                    );
                },
            }
        }
        assert(found_entries_decoded(all.take(k + 1))) by {
            assert forall|i: int|
                0 <= i < k + 1 && is_found(#[trigger] all.take(k + 1)[i]) implies all.take(
                k + 1,
            )[i].item is Some by {
                if i < k {
                    assert(all.take(k + 1)[i] == all.take(k)[i]);
                }
            }
        }
    }
    assert(all.take(all.len() as int) =~= all);
    Ok(items)
}

/// One child of a collection.
#[derive(Clone, Debug)]
pub struct CollectionChild {
    pub publishedfileid: String,
    pub sortorder: u32,
    pub filetype: u32,
}

/// One collection of a collection answer; `children` is `None` where the
/// answer lists none, as for an item that is not a collection.
#[derive(Clone, Debug)]
pub struct CollectionDetails {
    pub publishedfileid: String,
    pub result: u32,
    pub children: Option<Vec<CollectionChild>>,
}

#[derive(Clone, Debug)]
pub struct CollectionResponse {
    pub result: u32,
    pub resultcount: u32,
    pub collectiondetails: Vec<CollectionDetails>,
}

pub open spec fn child_ids(children: Seq<CollectionChild>) -> Seq<String> {
    children.map_values(|c: CollectionChild| c.publishedfileid)
}

/// The answer says that the item asked about is no collection.
pub open spec fn is_not_collection(a: CollectionResponse) -> bool {
    a.resultcount == 0 || (a.collectiondetails@.len() > 0 && a.collectiondetails@[0].children is None)
}

/// The identifiers of the children of the one collection asked about, in
/// answer order; `None` when it is no collection. An answer that counts
/// results but lists none fails with `RequestError`.
pub fn collection_children(answer: &CollectionResponse) -> (r: Result<Option<Vec<String>>, Error>)
    ensures
        is_not_collection(*answer) ==> r matches Ok(None),
        !is_not_collection(*answer) && answer.collectiondetails@.len() == 0 ==> (r matches Err(e)
            && e is RequestError),
        !is_not_collection(*answer) && answer.collectiondetails@.len() > 0 ==> (r matches Ok(
            Some(ids),
        ) && ids@ == child_ids(answer.collectiondetails@[0].children->0@)),
{
    if answer.resultcount == 0 {
        return Ok(None);
    }
    if answer.collectiondetails.len() == 0 {
        return Err(Error::RequestError(String::from_str("the answer lists no collection")));
    }
    match &answer.collectiondetails[0].children {
        None => Ok(None),
        Some(children) => {
            let mut ids: Vec<String> = Vec::new();
            let mut i: usize = 0;
            while i < children.len()
                invariant
                    i <= children@.len(),
                    ids@ == child_ids(children@.take(i as int)),
                decreases children@.len() - i,
            {
                ids.push(children[i].publishedfileid.clone());
                i = i + 1;
                assert(ids@ =~= child_ids(children@.take(i as int)));
            }
            assert(children@.take(i as int) =~= children@);
            Ok(Some(ids))
        },
    }
}

/// The decoded parts of a search answer: the number of matches, and the
/// items where the answer lists them.
#[derive(Clone, Debug)]
pub struct SearchResponse {
    pub total: u32,
    pub items: Option<Vec<WorkshopSearchItem>>,
}

/// The items of a search answer, in the detail shape. No matches give an
/// empty list; an answer that counts matches but lists no items fails with
/// `RequestError`.
pub fn search_results(answer: &SearchResponse) -> (r: Result<Vec<WorkshopItem>, Error>)
    ensures
        answer.total == 0 ==> (r matches Ok(v) && v@.len() == 0),
        answer.total > 0 && answer.items is None ==> (r matches Err(e) && e is RequestError),
        answer.total > 0 && answer.items is Some ==> (r matches Ok(v) && v@.len()
            == answer.items->0@.len() && forall|i: int|
            0 <= i < v@.len() ==> is_detail_shape_of(answer.items->0@[i], #[trigger] v@[i])),
{
    if answer.total == 0 {
        return Ok(Vec::new());
    }
    match &answer.items {
        None => Err(Error::RequestError(String::from_str("the answer counts matches but lists none"))),
        Some(found) => {
            let mut v: Vec<WorkshopItem> = Vec::new();
            let mut i: usize = 0;
            while i < found.len()
                invariant
                    i <= found@.len(),
                    v@.len() == i,
                    forall|j: int| 0 <= j < i ==> is_detail_shape_of(found@[j], #[trigger] v@[j]),
                decreases found@.len() - i,
            {
                v.push(found[i].to_workshop_item());
                i = i + 1;
            }
            Ok(v)
        },
    }
}

/// The answer to a subscription check: `true` only where the answer holds
/// the boolean `true`; a missing or malformed field counts as `false`.
pub fn can_subscribe_answer(field: Option<bool>) -> (r: bool)
    ensures
        r == (field == Some(true)),
{
    match field {
        Some(b) => b,
        None => false,
    }
}

} // verus!
