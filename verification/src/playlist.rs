//! The playlist commands: showing one playlist, creating one and adding
//! tracks to one.

use crate::catalog::{
    CreatedPlaylist, CreatedPlaylistView, EpisodeInfo, EpisodeView, Playable, PlayableView,
    PlaylistDetail, PlaylistDetailView, TrackInfo, TrackView,
};
use crate::ids::{
    gathered, outcome_view, parse_playlist, parse_tracks, playlist_id_of, track_outcomes,
    IdFailure, IdProblem,
};
use crate::json::{
    array, boolean, json_of, json_of_each, new_fields, no_fields, object, optional_text,
    put_field, signed, text, text_array, text_or_null, texts, unsigned, JsonValue,
};
use crate::report::{owner_doc, owner_value, public_doc, public_value, url_doc, url_value};
use vstd::prelude::*;

verus! {

/// How a track appears among the entries of a playlist.
pub open spec fn track_item_doc(t: TrackView) -> JsonValue {
    JsonValue::Object(
        no_fields()
            .insert("type"@, JsonValue::Text("track"@))
            .insert("id"@, text_or_null(t.id))
            .insert("name"@, JsonValue::Text(t.name))
            .insert("artists"@, text_array(t.artists))
            .insert("album"@, JsonValue::Text(t.album))
            .insert("duration_ms"@, JsonValue::Number(t.duration_ms)),
    )
}

/// How an episode appears among the entries of a playlist.
pub open spec fn episode_item_doc(e: EpisodeView) -> JsonValue {
    JsonValue::Object(
        no_fields()
            .insert("type"@, JsonValue::Text("episode"@))
            .insert("id"@, JsonValue::Text(e.id))
            .insert("name"@, JsonValue::Text(e.name))
            .insert("show"@, JsonValue::Text(e.show))
            .insert("duration_ms"@, JsonValue::Number(e.duration_ms)),
    )
}

/// How an entry of a playlist appears in the report.
pub open spec fn playable_doc(p: PlayableView) -> JsonValue {
    match p {
        PlayableView::Track(t) => track_item_doc(t),
        PlayableView::Episode(e) => episode_item_doc(e),
        PlayableView::Unknown => JsonValue::Object(
            no_fields().insert("type"@, JsonValue::Text("unknown"@)),
        ),
    }
}

/// The entries of a playlist in report form: the slots without an item are
/// left out, the others keep their order.
pub open spec fn entry_docs(entries: Seq<Option<PlayableView>>) -> Seq<JsonValue> {
    entries.filter(|e: Option<PlayableView>| e is Some).map_values(
        |e: Option<PlayableView>| playable_doc(e->Some_0),
    )
}

/// The report on one playlist.
pub open spec fn playlist_doc(p: PlaylistDetailView) -> JsonValue {
    JsonValue::Object(
        no_fields()
            .insert("id"@, JsonValue::Text(p.id))
            .insert("name"@, JsonValue::Text(p.name))
            .insert("owner"@, owner_doc(p.owner))
            .insert("public"@, public_doc(p.public))
            .insert("collaborative"@, JsonValue::Bool(p.collaborative))
            .insert("followers"@, JsonValue::Number(p.followers))
            .insert("description"@, text_or_null(p.description))
            .insert("url"@, url_doc(p.links))
            .insert("total_tracks"@, JsonValue::Number(p.total_tracks))
            .insert("tracks"@, JsonValue::Array(entry_docs(p.entries))),
    )
}

/// The report on a playlist that was just created.
pub open spec fn created_doc(p: CreatedPlaylistView) -> JsonValue {
    JsonValue::Object(
        no_fields()
            .insert("id"@, JsonValue::Text(p.id))
            .insert("name"@, JsonValue::Text(p.name))
            .insert("public"@, public_doc(p.public))
            .insert("description"@, text_or_null(p.description))
            .insert("url"@, url_doc(p.links)),
    )
}

fn track_item(t: &TrackInfo) -> (r: serde_json::Value)
    ensures
        json_of(r) == track_item_doc(t@),
{
    let mut m = new_fields();
    put_field(&mut m, "type", text("track"));
    put_field(&mut m, "id", optional_text(&t.id));
    put_field(&mut m, "name", text(t.name.as_str()));
    put_field(&mut m, "artists", texts(&t.artists));
    put_field(&mut m, "album", text(t.album.as_str()));
    put_field(&mut m, "duration_ms", signed(t.duration_ms));
    object(m)
}

fn episode_item(e: &EpisodeInfo) -> (r: serde_json::Value)
    ensures
        json_of(r) == episode_item_doc(e@),
{
    let mut m = new_fields();
    put_field(&mut m, "type", text("episode"));
    put_field(&mut m, "id", text(e.id.as_str()));
    put_field(&mut m, "name", text(e.name.as_str()));
    put_field(&mut m, "show", text(e.show.as_str()));
    put_field(&mut m, "duration_ms", signed(e.duration_ms));
    object(m)
}

/// The entry of one item of a playlist.
pub fn playable_entry(p: &Playable) -> (r: serde_json::Value)
    ensures
        json_of(r) == playable_doc(p@),
{
    match p {
        Playable::Track(t) => track_item(t),
        Playable::Episode(e) => episode_item(e),
        Playable::Unknown => {
            let mut m = new_fields();
            put_field(&mut m, "type", text("unknown"));
            object(m)
        },
    }
}

/// Adding one slot to the entries adds its document, if the slot holds an
/// item, and nothing otherwise.
proof fn entry_docs_step(entries: Seq<Option<PlayableView>>, i: int)
    requires
        0 <= i < entries.len(),
    ensures
        entry_docs(entries.take(i + 1)) == match entries[i] {
            Some(p) => entry_docs(entries.take(i)).push(playable_doc(p)),
            None => entry_docs(entries.take(i)),
        },
{
    let keep = |e: Option<PlayableView>| e is Some;
    let before = entries.take(i);
    let upto = entries.take(i + 1);
    assert(upto.drop_last() =~= before);
    assert(upto.last() == entries[i]);
    reveal(Seq::filter);
    assert(upto.filter(keep) == if keep(entries[i]) {
        before.filter(keep).push(entries[i])
    } else {
        before.filter(keep)
    });
    match entries[i] {
        Some(p) => {
            assert(entry_docs(upto) =~= entry_docs(before).push(playable_doc(p)));
        },
        None => {},
    }
}

/// The report that the command showing one playlist prints.
pub fn playlist_report(p: &PlaylistDetail) -> (r: serde_json::Value)
    ensures
        json_of(r) == playlist_doc(p@),
{
    let ghost slots = p.entries.deep_view();
    let mut shown: Vec<serde_json::Value> = Vec::new();
    let mut i: usize = 0;
    assert(slots.take(0) =~= Seq::empty());
    assert(json_of_each(shown@) =~= entry_docs(slots.take(0))) by {
        reveal(Seq::filter);
    }
    while i < p.entries.len()
        invariant
            i <= p.entries.len(),
            slots == p.entries.deep_view(),
            json_of_each(shown@) == entry_docs(slots.take(i as int)),
        decreases p.entries.len() - i,
    {
        proof {
            entry_docs_step(slots, i as int);
        }
        let ghost before = shown@;
        match &p.entries[i] {
            Some(item) => {
                shown.push(playable_entry(item));
                assert(json_of_each(shown@) =~= json_of_each(before).push(playable_doc(item@)));
            },
            None => {},
        }
        i += 1;
    }
    assert(slots.take(i as int) =~= slots);
    let mut m = new_fields();
    put_field(&mut m, "id", text(p.id.as_str()));
    put_field(&mut m, "name", text(p.name.as_str()));
    put_field(&mut m, "owner", owner_value(&p.owner));
    put_field(&mut m, "public", public_value(p.public));
    put_field(&mut m, "collaborative", boolean(p.collaborative));
    put_field(&mut m, "followers", unsigned(p.followers as u64));
    put_field(&mut m, "description", optional_text(&p.description));
    put_field(&mut m, "url", url_value(&p.links));
    put_field(&mut m, "total_tracks", unsigned(p.total_tracks as u64));
    put_field(&mut m, "tracks", array(shown));
    object(m)
}

/// The report that the command creating a playlist prints.
pub fn created_report(p: &CreatedPlaylist) -> (r: serde_json::Value)
    ensures
        json_of(r) == created_doc(p@),
{
    let mut m = new_fields();
    put_field(&mut m, "id", text(p.id.as_str()));
    put_field(&mut m, "name", text(p.name.as_str()));
    put_field(&mut m, "public", public_value(p.public));
    put_field(&mut m, "description", optional_text(&p.description));
    put_field(&mut m, "url", url_value(&p.links));
    object(m)
}

/// What adding tracks asks of the service: the playlist and the tracks, by
/// their ids.
#[derive(Clone, Debug, PartialEq, Eq)]
pub struct AddPlan {
    pub playlist: String,
    pub tracks: Vec<String>,
}

/// Why nothing is added: the playlist's text is no playlist, or one of the
/// tracks' texts is no track.
#[derive(Clone, Copy, Debug, PartialEq, Eq, Structural)]
pub enum AddRefusal {
    Playlist(IdProblem),
    Track(IdFailure),
}

/// The playlist is looked at first. Only when it is one are the tracks
/// looked at, and all of them must be tracks.
pub open spec fn add_decided(
    playlist: Result<Seq<char>, IdProblem>,
    tracks: Seq<Result<Seq<char>, IdProblem>>,
    r: Result<AddPlan, AddRefusal>,
) -> bool {
    match playlist {
        Err(problem) => r == Err::<AddPlan, AddRefusal>(AddRefusal::Playlist(problem)),
        Ok(id) => match r {
            Ok(plan) => plan.playlist@ == id && gathered(tracks, Ok(plan.tracks)),
            Err(AddRefusal::Track(f)) => gathered(tracks, Err(f)),
            Err(AddRefusal::Playlist(_)) => false,
        },
    }
}

/// Puts the plan together from what the playlist's text and the tracks'
/// texts turned out to be.
pub fn decide_add(
    playlist: Result<String, IdProblem>,
    tracks: Result<Vec<String>, IdFailure>,
) -> (r: Result<AddPlan, AddRefusal>)
    ensures
        match outcome_view(playlist) {
            Err(problem) => r == Err::<AddPlan, AddRefusal>(AddRefusal::Playlist(problem)),
            Ok(id) => match tracks {
                Ok(ids) => r matches Ok(plan) && plan.playlist@ == id && plan.tracks == ids,
                Err(f) => r == Err::<AddPlan, AddRefusal>(AddRefusal::Track(f)),
            },
        },
{
    match playlist {
        Err(problem) => Err(AddRefusal::Playlist(problem)),
        Ok(id) => match tracks {
            Ok(ids) => Ok(AddPlan { playlist: id, tracks: ids }),
            Err(f) => Err(AddRefusal::Track(f)),
        },
    }
}

/// Decides what adding the given tracks to the given playlist asks of the
/// service.
pub fn plan_add(playlist: &str, tracks: &Vec<String>) -> (r: Result<AddPlan, AddRefusal>)
    ensures
        add_decided(playlist_id_of(playlist@), track_outcomes(tracks.deep_view()), r),
{
    decide_add(parse_playlist(playlist), parse_tracks(tracks))
}

/// The report after adding tracks: the playlist as the user named it, how
/// many tracks were named and the snapshot that the service returned.
pub open spec fn added_doc(playlist: Seq<char>, tracks: nat, snapshot_id: Seq<char>) -> JsonValue {
    JsonValue::Object(
        no_fields()
            .insert("playlist"@, JsonValue::Text(playlist))
            .insert("added"@, JsonValue::Number(tracks as int))
            .insert("snapshot_id"@, JsonValue::Text(snapshot_id)),
    )
}

/// The report that the command adding tracks prints.
pub fn added_report(
    playlist: &str,
    tracks: &Vec<String>,
    snapshot_id: &str,
) -> (r: serde_json::Value)
    ensures
        json_of(r) == added_doc(playlist@, tracks@.len(), snapshot_id@),
{
    let mut m = new_fields();
    put_field(&mut m, "playlist", text(playlist));
    put_field(&mut m, "added", unsigned(tracks.len() as u64));
    put_field(&mut m, "snapshot_id", text(snapshot_id));
    object(m)
}

} // verus!
