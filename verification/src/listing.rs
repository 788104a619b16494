//! Listing the user's playlists page by page.
//!
//! The caller fetches; this module says which page to fetch next, keeps what
//! has come in and builds the report when the last page has arrived.

use crate::catalog::{PlaylistInfo, PlaylistView};
use crate::json::{
    array, json_of, json_of_each, new_fields, no_fields, object, put_field, text, unsigned,
    JsonValue,
};
use crate::report::{owner_doc, owner_value, public_doc, public_value, url_doc, url_value};
use vstd::prelude::*;

verus! {

/// The number of playlists asked for in one request.
pub const PAGE_SIZE: u32 = 50;

/// One request for a page: at most `limit` playlists, skipping `offset`.
#[derive(Clone, Copy, Debug, PartialEq, Eq, Structural)]
pub struct PageRequest {
    pub limit: u32,
    pub offset: u32,
}

/// One page of the answer: its playlists and the link to the next page,
/// which the last page does not have.
#[derive(Clone, Debug, PartialEq, Eq)]
pub struct PlaylistPage {
    pub items: Vec<PlaylistInfo>,
    pub next: Option<String>,
}

/// What to do after a page has been taken in.
#[derive(Clone, Copy, Debug, PartialEq, Eq, Structural)]
pub enum ListingStep {
    /// Fetch this page and hand it to [`Listing::absorb`].
    Fetch(PageRequest),
    /// That was the last page: the report is complete.
    Done,
}

/// The playlists collected so far and the place where the next page starts.
pub struct Listing {
    rows: Vec<PlaylistInfo>,
    offset: u32,
}

/// A listing as a mathematical value.
pub struct ListingView {
    /// The playlists collected so far, in the order in which they came.
    pub rows: Seq<PlaylistView>,
    /// The number of playlists to skip in the next request.
    pub offset: int,
}

impl View for Listing {
    type V = ListingView;

    closed spec fn view(&self) -> ListingView {
        ListingView { rows: self.rows.deep_view(), offset: self.offset as int }
    }
}

impl ListingView {
    /// The listing that has seen no page yet.
    pub open spec fn start() -> ListingView {
        ListingView { rows: Seq::empty(), offset: 0 }
    }

    /// The request for the page that comes next: a full page from the
    /// current offset.
    pub open spec fn request(self) -> PageRequest {
        PageRequest { limit: PAGE_SIZE, offset: self.offset as u32 }
    }

    /// Whether a page can be taken in: if it names a successor, the next
    /// offset must still be a `u32`.
    pub open spec fn has_room_for(self, more: bool) -> bool {
        more ==> self.offset + PAGE_SIZE <= u32::MAX
    }

    /// The listing after a page with the given playlists was taken in.
    /// `more` says whether the page names a successor. The playlists are
    /// appended; the offset moves one page on if there is more to fetch.
    pub open spec fn absorbed(self, items: Seq<PlaylistView>, more: bool) -> ListingView {
        ListingView {
            rows: self.rows + items,
            offset: if more {
                self.offset + PAGE_SIZE
            } else {
                self.offset
            },
        }
    }

    /// What to do in this state, reached by taking in a page.
    pub open spec fn step(self, more: bool) -> ListingStep {
        if more {
            ListingStep::Fetch(self.request())
        } else {
            ListingStep::Done
        }
    }

    /// The listing after taking in, one after the other, pages that each
    /// name a successor.
    pub open spec fn after_pages(pages: Seq<Seq<PlaylistView>>) -> ListingView
        decreases pages.len(),
    {
        if pages.len() == 0 {
            ListingView::start()
        } else {
            ListingView::after_pages(pages.drop_last()).absorbed(pages.last(), true)
        }
    }
}

/// How a playlist appears in the list of the user's playlists.
pub open spec fn listed_doc(p: PlaylistView) -> JsonValue {
    JsonValue::Object(
        no_fields()
            .insert("id"@, JsonValue::Text(p.id))
            .insert("name"@, JsonValue::Text(p.name))
            .insert("tracks"@, JsonValue::Number(p.tracks))
            .insert("public"@, public_doc(p.public))
            .insert("owner"@, owner_doc(p.owner))
            .insert("url"@, url_doc(p.links)),
    )
}

/// The entries of the given playlists, in their order.
pub open spec fn listed_docs(rows: Seq<PlaylistView>) -> Seq<JsonValue> {
    Seq::new(rows.len(), |i: int| listed_doc(rows[i]))
}

/// The report on the user's playlists: how many there are, and each of them.
pub open spec fn listing_doc(rows: Seq<PlaylistView>) -> JsonValue {
    JsonValue::Object(
        no_fields()
            .insert("total"@, JsonValue::Number(rows.len() as int))
            .insert("playlists"@, JsonValue::Array(listed_docs(rows))),
    )
}

/// The entry of one playlist in the list of the user's playlists.
pub fn listed_entry(p: &PlaylistInfo) -> (r: serde_json::Value)
    ensures
        json_of(r) == listed_doc(p@),
{
    let mut m = new_fields();
    put_field(&mut m, "id", text(p.id.as_str()));
    put_field(&mut m, "name", text(p.name.as_str()));
    put_field(&mut m, "tracks", unsigned(p.tracks as u64));
    put_field(&mut m, "public", public_value(p.public));
    put_field(&mut m, "owner", owner_value(&p.owner));
    put_field(&mut m, "url", url_value(&p.links));
    object(m)
}

impl Listing {
    /// A listing that has seen no page yet.
    pub fn new() -> (r: Listing)
        ensures
            r@ == ListingView::start(),
    {
        let r = Listing { rows: Vec::new(), offset: 0 };
        assert(r.rows.deep_view() =~= Seq::<PlaylistView>::empty());
        r
    }

    /// The request for the page that comes next.
    pub fn request(&self) -> (r: PageRequest)
        ensures
            r == self@.request(),
    {
        PageRequest { limit: PAGE_SIZE, offset: self.offset }
    }

    /// Whether `page` can be taken in (see [`ListingView::has_room_for`]).
    pub fn can_absorb(&self, page: &PlaylistPage) -> (r: bool)
        ensures
            r == self@.has_room_for(page.next is Some),
    {
        page.next.is_none() || self.offset <= u32::MAX - PAGE_SIZE
    }

    /// Takes a page in and says what to do next.
    pub fn absorb(&mut self, page: PlaylistPage) -> (step: ListingStep)
        requires
            old(self)@.has_room_for(page.next is Some),
        ensures
            final(self)@ == old(self)@.absorbed(page.items.deep_view(), page.next is Some),
            step == final(self)@.step(page.next is Some),
    {
        let PlaylistPage { items, next } = page;
        let ghost before = self.rows.deep_view();
        let mut items = items;
        let ghost added = items.deep_view();
        self.rows.append(&mut items);
        assert(self.rows.deep_view() =~= before + added);
        match next {
            Some(_) => {
                self.offset = self.offset + PAGE_SIZE;
                ListingStep::Fetch(PageRequest { limit: PAGE_SIZE, offset: self.offset })
            },
            None => ListingStep::Done,
        }
    }

    /// The report on the playlists collected so far.
    pub fn report(&self) -> (r: serde_json::Value)
        ensures
            json_of(r) == listing_doc(self@.rows),
    {
        let mut entries: Vec<serde_json::Value> = Vec::new();
        let mut i: usize = 0;
        while i < self.rows.len()
            invariant
                i <= self.rows.len(),
                entries@.len() == i,
                forall|k: int|
                    0 <= k < i ==> json_of(#[trigger] entries@[k]) == listed_doc(self.rows@[k]@),
            decreases self.rows.len() - i,
        {
            entries.push(listed_entry(&self.rows[i]));
            i += 1;
        }
        assert(json_of_each(entries@) =~= listed_docs(self@.rows));
        let mut m = new_fields();
        put_field(&mut m, "total", unsigned(self.rows.len() as u64));
        put_field(&mut m, "playlists", array(entries));
        object(m)
    }
}

/// Every request starts where the pages before it end. After taking in any
/// number of pages that each name a successor, the next request skips one
/// page size for each of them, and the playlists collected are those of the
/// pages, one page after the other.
pub proof fn offset_counts_pages(pages: Seq<Seq<PlaylistView>>)
    ensures
        ListingView::after_pages(pages).offset == PAGE_SIZE * pages.len(),
        ListingView::after_pages(pages).rows == pages.flatten(),
    decreases pages.len(),
{
    if pages.len() == 0 {
        assert(pages.flatten() =~= Seq::<PlaylistView>::empty());
    } else {
        offset_counts_pages(pages.drop_last());
        pages.lemma_flatten_and_flatten_alt_are_equivalent();
        pages.drop_last().lemma_flatten_and_flatten_alt_are_equivalent();
    }
}

/// The report counts what it lists. For every sequence of playlists the
/// report's `total` is the number of entries under `playlists`, and the
/// entries are those of the playlists, in their order.
pub proof fn listing_total_counts_entries(rows: Seq<PlaylistView>)
    ensures
        ({
            &&& listing_doc(rows) matches JsonValue::Object(members)
            &&& members.contains_key("total"@)
            &&& members.contains_key("playlists"@)
            &&& members["playlists"@] matches JsonValue::Array(entries)
            &&& members["total"@] == JsonValue::Number(entries.len() as int)
            &&& entries == listed_docs(rows)
            &&& entries.len() == rows.len()
        }),
{
    reveal_strlit("total");
    reveal_strlit("playlists");
    assert("total"@ != "playlists"@) by {
        assert("total"@[0] == 't' && "playlists"@[0] == 'p');
    }
}

} // verus!
