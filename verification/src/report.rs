//! The JSON documents that the commands print, built from the service's
//! answers.

use crate::catalog::{
    AlbumInfo, AlbumView, ArtistInfo, ArtistView, Link, LinkView, PlaylistInfo, PlaylistView,
    SearchFound, SearchFoundView, TrackInfo, TrackView,
};
use crate::json::{
    array, boolean, json_of, json_of_each, new_fields, no_fields, null, object,
    optional_text, put_field, signed, text, text_array, text_or_null, texts, unsigned, JsonValue,
};
use vstd::prelude::*;

verus! {

/// The site whose link the reports show.
pub open spec fn home_site() -> Seq<char> {
    "spotify"@
}

/// The URL of the first link to `site`, if there is one.
pub open spec fn link_to(links: Seq<LinkView>, site: Seq<char>) -> Option<Seq<char>>
    decreases links.len(),
{
    if links.len() == 0 {
        None
    } else if links[0].site == site {
        Some(links[0].url)
    } else {
        link_to(links.skip(1), site)
    }
}

/// The `url` member of a report: the link to the home site, or `null`.
pub open spec fn url_doc(links: Seq<LinkView>) -> JsonValue {
    text_or_null(link_to(links, home_site()))
}

/// The name shown for an owner whose display name is unknown.
pub open spec fn owner_doc(owner: Option<Seq<char>>) -> JsonValue {
    match owner {
        Some(name) => JsonValue::Text(name),
        None => JsonValue::Text("unknown"@),
    }
}

/// A playlist whose visibility is unknown is reported as not public.
pub open spec fn public_doc(public: Option<bool>) -> JsonValue {
    match public {
        Some(b) => JsonValue::Bool(b),
        None => JsonValue::Bool(false),
    }
}

/// The value of the `url` member for an object with the given links.
pub fn url_value(links: &Vec<Link>) -> (r: serde_json::Value)
    ensures
        json_of(r) == url_doc(links.deep_view()),
{
    let site = "spotify".to_owned();
    let mut i: usize = 0;
    assert(links.deep_view().skip(0) =~= links.deep_view());
    while i < links.len()
        invariant
            i <= links.len(),
            site@ == home_site(),
            link_to(links.deep_view(), home_site()) == link_to(
                links.deep_view().skip(i as int),
                home_site(),
            ),
        decreases links.len() - i,
    {
        let ghost rest = links.deep_view().skip(i as int);
        assert(rest[0] == links@[i as int].deep_view());
        if links[i].site == site {
            return text(links[i].url.as_str());
        }
        assert(rest.skip(1) =~= links.deep_view().skip(i + 1));
        i += 1;
    }
    null()
}

/// The value of the `owner` member.
pub fn owner_value(owner: &Option<String>) -> (r: serde_json::Value)
    ensures
        json_of(r) == owner_doc(owner.deep_view()),
{
    match owner {
        Some(name) => text(name.as_str()),
        None => text("unknown"),
    }
}

/// The value of the `public` member.
pub fn public_value(public: Option<bool>) -> (r: serde_json::Value)
    ensures
        json_of(r) == public_doc(public),
{
    match public {
        Some(b) => boolean(b),
        None => boolean(false),
    }
}

/// How a track appears among search results.
pub open spec fn track_doc(t: TrackView) -> JsonValue {
    JsonValue::Object(
        no_fields()
            .insert("id"@, text_or_null(t.id))
            .insert("name"@, JsonValue::Text(t.name))
            .insert("artists"@, text_array(t.artists))
            .insert("album"@, JsonValue::Text(t.album))
            .insert("duration_ms"@, JsonValue::Number(t.duration_ms)),
    )
}

/// How an album appears among search results.
pub open spec fn album_doc(a: AlbumView) -> JsonValue {
    JsonValue::Object(
        no_fields()
            .insert("id"@, text_or_null(a.id))
            .insert("name"@, JsonValue::Text(a.name))
            .insert("artists"@, text_array(a.artists))
            .insert("release_date"@, text_or_null(a.release_date)),
    )
}

/// How an artist appears among search results.
pub open spec fn artist_doc(a: ArtistView) -> JsonValue {
    JsonValue::Object(
        no_fields()
            .insert("id"@, JsonValue::Text(a.id))
            .insert("name"@, JsonValue::Text(a.name))
            .insert("genres"@, text_array(a.genres))
            .insert("followers"@, JsonValue::Number(a.followers))
            .insert("popularity"@, JsonValue::Number(a.popularity)),
    )
}

/// How a playlist appears among search results.
pub open spec fn found_playlist_doc(p: PlaylistView) -> JsonValue {
    JsonValue::Object(
        no_fields()
            .insert("id"@, JsonValue::Text(p.id))
            .insert("name"@, JsonValue::Text(p.name))
            .insert("tracks"@, JsonValue::Number(p.tracks))
            .insert("owner"@, owner_doc(p.owner))
            .insert("url"@, url_doc(p.links)),
    )
}

/// The report of a search that found `items`, already in report form.
pub open spec fn found_doc(
    query: Seq<char>,
    kind: Seq<char>,
    total: int,
    items: Seq<JsonValue>,
) -> JsonValue {
    JsonValue::Object(
        no_fields()
            .insert("query"@, JsonValue::Text(query))
            .insert("type"@, JsonValue::Text(kind))
            .insert("total"@, JsonValue::Number(total))
            .insert("items"@, JsonValue::Array(items)),
    )
}

/// A report that carries nothing but an error message.
pub open spec fn error_doc(message: Seq<char>) -> JsonValue {
    JsonValue::Object(no_fields().insert("error"@, JsonValue::Text(message)))
}

/// The entries of a page of tracks, in the page's order.
pub open spec fn track_docs(items: Seq<TrackView>) -> Seq<JsonValue> {
    Seq::new(items.len(), |i: int| track_doc(items[i]))
}

/// The entries of a page of albums, in the page's order.
pub open spec fn album_docs(items: Seq<AlbumView>) -> Seq<JsonValue> {
    Seq::new(items.len(), |i: int| album_doc(items[i]))
}

/// The entries of a page of artists, in the page's order.
pub open spec fn artist_docs(items: Seq<ArtistView>) -> Seq<JsonValue> {
    Seq::new(items.len(), |i: int| artist_doc(items[i]))
}

/// The entries of a page of playlists, in the page's order.
pub open spec fn found_playlist_docs(items: Seq<PlaylistView>) -> Seq<JsonValue> {
    Seq::new(items.len(), |i: int| found_playlist_doc(items[i]))
}

/// The report of a search: the query, the kind of item, the total that the
/// service gave and one entry for each item of the page, in the page's order.
/// A kind that the reports do not cover gives an error report.
pub open spec fn search_doc(query: Seq<char>, found: SearchFoundView) -> JsonValue {
    match found {
        SearchFoundView::Tracks { total, items } => {
            found_doc(query, "track"@, total, track_docs(items))
        },
        SearchFoundView::Albums { total, items } => {
            found_doc(query, "album"@, total, album_docs(items))
        },
        SearchFoundView::Artists { total, items } => {
            found_doc(query, "artist"@, total, artist_docs(items))
        },
        SearchFoundView::Playlists { total, items } => {
            found_doc(query, "playlist"@, total, found_playlist_docs(items))
        },
        SearchFoundView::Other => error_doc("unsupported search type"@),
    }
}

/// The entry of one track.
pub fn track_entry(t: &TrackInfo) -> (r: serde_json::Value)
    ensures
        json_of(r) == track_doc(t@),
{
    let mut m = new_fields();
    put_field(&mut m, "id", optional_text(&t.id));
    put_field(&mut m, "name", text(t.name.as_str()));
    put_field(&mut m, "artists", texts(&t.artists));
    put_field(&mut m, "album", text(t.album.as_str()));
    put_field(&mut m, "duration_ms", signed(t.duration_ms));
    object(m)
}

/// The entry of one album.
pub fn album_entry(a: &AlbumInfo) -> (r: serde_json::Value)
    ensures
        json_of(r) == album_doc(a@),
{
    let mut m = new_fields();
    put_field(&mut m, "id", optional_text(&a.id));
    put_field(&mut m, "name", text(a.name.as_str()));
    put_field(&mut m, "artists", texts(&a.artists));
    put_field(&mut m, "release_date", optional_text(&a.release_date));
    object(m)
}

/// The entry of one artist.
pub fn artist_entry(a: &ArtistInfo) -> (r: serde_json::Value)
    ensures
        json_of(r) == artist_doc(a@),
{
    let mut m = new_fields();
    put_field(&mut m, "id", text(a.id.as_str()));
    put_field(&mut m, "name", text(a.name.as_str()));
    put_field(&mut m, "genres", texts(&a.genres));
    put_field(&mut m, "followers", unsigned(a.followers as u64));
    put_field(&mut m, "popularity", unsigned(a.popularity as u64));
    object(m)
}

/// The entry of one playlist that a search found.
pub fn found_playlist_entry(p: &PlaylistInfo) -> (r: serde_json::Value)
    ensures
        json_of(r) == found_playlist_doc(p@),
{
    let mut m = new_fields();
    put_field(&mut m, "id", text(p.id.as_str()));
    put_field(&mut m, "name", text(p.name.as_str()));
    put_field(&mut m, "tracks", unsigned(p.tracks as u64));
    put_field(&mut m, "owner", owner_value(&p.owner));
    put_field(&mut m, "url", url_value(&p.links));
    object(m)
}

/// A report that carries nothing but an error message.
pub fn error_report(message: &str) -> (r: serde_json::Value)
    ensures
        json_of(r) == error_doc(message@),
{
    let mut m = new_fields();
    put_field(&mut m, "error", text(message));
    object(m)
}

/// Wraps the entries of a search in its report.
fn found_report(
    query: &str,
    kind: &str,
    total: u32,
    entries: Vec<serde_json::Value>,
) -> (r: serde_json::Value)
    ensures
        json_of(r) == found_doc(query@, kind@, total as int, json_of_each(entries@)),
{
    let mut m = new_fields();
    put_field(&mut m, "query", text(query));
    put_field(&mut m, "type", text(kind));
    put_field(&mut m, "total", unsigned(total as u64));
    put_field(&mut m, "items", array(entries));
    object(m)
}

/// The entries of a page of tracks.
pub fn track_entries(items: &Vec<TrackInfo>) -> (r: Vec<serde_json::Value>)
    ensures
        json_of_each(r@) == track_docs(items.deep_view()),
{
    let mut entries: Vec<serde_json::Value> = Vec::new();
    let mut i: usize = 0;
    while i < items.len()
        invariant
            i <= items.len(),
            entries@.len() == i,
            forall|k: int| 0 <= k < i ==> json_of(#[trigger] entries@[k]) == track_doc(items@[k]@),
        decreases items.len() - i,
    {
        entries.push(track_entry(&items[i]));
        i += 1;
    }
    assert(json_of_each(entries@) =~= track_docs(items.deep_view()));
    entries
}

/// The entries of a page of albums.
pub fn album_entries(items: &Vec<AlbumInfo>) -> (r: Vec<serde_json::Value>)
    ensures
        json_of_each(r@) == album_docs(items.deep_view()),
{
    let mut entries: Vec<serde_json::Value> = Vec::new();
    let mut i: usize = 0;
    while i < items.len()
        invariant
            i <= items.len(),
            entries@.len() == i,
            forall|k: int| 0 <= k < i ==> json_of(#[trigger] entries@[k]) == album_doc(items@[k]@),
        decreases items.len() - i,
    {
        entries.push(album_entry(&items[i]));
        i += 1;
    }
    assert(json_of_each(entries@) =~= album_docs(items.deep_view()));
    entries
}

/// The entries of a page of artists.
pub fn artist_entries(items: &Vec<ArtistInfo>) -> (r: Vec<serde_json::Value>)
    ensures
        json_of_each(r@) == artist_docs(items.deep_view()),
{
    let mut entries: Vec<serde_json::Value> = Vec::new();
    let mut i: usize = 0;
    while i < items.len()
        invariant
            i <= items.len(),
            entries@.len() == i,
            forall|k: int| 0 <= k < i ==> json_of(#[trigger] entries@[k]) == artist_doc(items@[k]@),
        decreases items.len() - i,
    {
        entries.push(artist_entry(&items[i]));
        i += 1;
    }
    assert(json_of_each(entries@) =~= artist_docs(items.deep_view()));
    entries
}

/// The entries of a page of playlists.
pub fn found_playlist_entries(items: &Vec<PlaylistInfo>) -> (r: Vec<serde_json::Value>)
    ensures
        json_of_each(r@) == found_playlist_docs(items.deep_view()),
{
    let mut entries: Vec<serde_json::Value> = Vec::new();
    let mut i: usize = 0;
    while i < items.len()
        invariant
            i <= items.len(),
            entries@.len() == i,
            forall|k: int| 0 <= k < i ==> json_of(#[trigger] entries@[k]) == found_playlist_doc(items@[k]@),
        decreases items.len() - i,
    {
        entries.push(found_playlist_entry(&items[i]));
        i += 1;
    }
    assert(json_of_each(entries@) =~= found_playlist_docs(items.deep_view()));
    entries
}

/// The report that the search command prints for `query` and what the
/// service answered.
pub fn search_report(query: &str, found: &SearchFound) -> (r: serde_json::Value)
    ensures
        json_of(r) == search_doc(query@, found@),
{
    match found {
        SearchFound::Tracks { total, items } => {
            found_report(query, "track", *total, track_entries(items))
        },
        SearchFound::Albums { total, items } => {
            found_report(query, "album", *total, album_entries(items))
        },
        SearchFound::Artists { total, items } => {
            found_report(query, "artist", *total, artist_entries(items))
        },
        SearchFound::Playlists { total, items } => {
            found_report(query, "playlist", *total, found_playlist_entries(items))
        },
        SearchFound::Other => error_report("unsupported search type"),
    }
}

/// The names of the items that a search found, in their order.
pub open spec fn found_names(found: SearchFoundView) -> Seq<Seq<char>> {
    match found {
        SearchFoundView::Tracks { total, items } => Seq::new(items.len(), |i: int| items[i].name),
        SearchFoundView::Albums { total, items } => Seq::new(items.len(), |i: int| items[i].name),
        SearchFoundView::Artists { total, items } => Seq::new(items.len(), |i: int| items[i].name),
        SearchFoundView::Playlists { total, items } => Seq::new(
            items.len(),
            |i: int| items[i].name,
        ),
        SearchFoundView::Other => Seq::empty(),
    }
}

/// The total that the service reported with what it found.
pub open spec fn found_total(found: SearchFoundView) -> int {
    match found {
        SearchFoundView::Tracks { total, items } => total,
        SearchFoundView::Albums { total, items } => total,
        SearchFoundView::Artists { total, items } => total,
        SearchFoundView::Playlists { total, items } => total,
        SearchFoundView::Other => 0,
    }
}

/// The entry is an object whose `name` is the given text.
pub open spec fn has_name(entry: JsonValue, name: Seq<char>) -> bool {
    &&& entry matches JsonValue::Object(members)
    &&& members.contains_key("name"@)
    &&& members["name"@] == JsonValue::Text(name)
}

/// The report repeats the query and the total, and its `items` are one
/// entry for each of the names, in their order, each carrying its name.
pub open spec fn echoes(
    report: JsonValue,
    query: Seq<char>,
    total: int,
    names: Seq<Seq<char>>,
) -> bool {
    &&& report matches JsonValue::Object(members)
    &&& members.contains_key("query"@)
    &&& members["query"@] == JsonValue::Text(query)
    &&& members.contains_key("total"@)
    &&& members["total"@] == JsonValue::Number(total)
    &&& members.contains_key("items"@)
    &&& members["items"@] matches JsonValue::Array(entries)
    &&& entries.len() == names.len()
    &&& forall|i: int| 0 <= i < names.len() ==> has_name(#[trigger] entries[i], names[i])
}

/// A search is echoed item by item. For every query and every answer of a
/// kind that the reports cover, the report repeats the query and the total,
/// and its `items` hold exactly one entry for each item of the answer, in
/// the answer's order, each with the name of its item.
pub proof fn search_report_echoes_items(query: Seq<char>, found: SearchFoundView)
    requires
        found !is Other,
    ensures
        echoes(search_doc(query, found), query, found_total(found), found_names(found)),
{
    reveal_strlit("query");
    reveal_strlit("type");
    reveal_strlit("total");
    reveal_strlit("items");
    reveal_strlit("name");
    reveal_strlit("artists");
    reveal_strlit("album");
    reveal_strlit("duration_ms");
    reveal_strlit("release_date");
    reveal_strlit("genres");
    reveal_strlit("followers");
    reveal_strlit("popularity");
    reveal_strlit("tracks");
    reveal_strlit("owner");
    reveal_strlit("url");
    assert("query"@ != "type"@ && "query"@ != "total"@ && "query"@ != "items"@) by {
        assert("query"@[0] == 'q' && "type"@[0] == 't' && "total"@[0] == 't' && "items"@[0] == 'i');
    }
    assert("total"@ != "items"@) by {
        assert("total"@[0] == 't' && "items"@[0] == 'i');
    }
    assert("name"@ != "artists"@ && "name"@ != "album"@ && "name"@ != "duration_ms"@ && "name"@
        != "release_date"@ && "name"@ != "genres"@ && "name"@ != "followers"@ && "name"@
        != "popularity"@ && "name"@ != "tracks"@ && "name"@ != "owner"@ && "name"@ != "url"@) by {
        assert("name"@[0] == 'n');
        assert("artists"@[0] == 'a' && "album"@[0] == 'a' && "duration_ms"@[0] == 'd');
        assert("release_date"@[0] == 'r' && "genres"@[0] == 'g' && "followers"@[0] == 'f');
        assert("popularity"@[0] == 'p' && "tracks"@[0] == 't' && "owner"@[0] == 'o');
        assert("url"@[0] == 'u');
    }
}

} // verus!
