//! Saving items to the user's library: what to ask of the service, in which
//! order, and what to report afterwards.

use crate::command::ItemType;
use crate::ids::{
    album_outcomes, gathered, outcome_view, parse_albums, parse_playlist, parse_tracks,
    playlist_id_of, track_outcomes, IdFailure, IdProblem,
};
use crate::json::{
    json_of, new_fields, no_fields, object, put_field, text, text_array, texts, unsigned,
    JsonValue,
};
use crate::report::{error_doc, error_report};
use vstd::prelude::*;

verus! {

/// What saving asks of the service.
#[derive(Clone, Debug, PartialEq, Eq)]
pub enum SavePlan {
    /// Add the tracks with these ids to the library, in one request.
    Tracks(Vec<String>),
    /// Add the albums with these ids to the library, in one request.
    Albums(Vec<String>),
    /// Follow the playlists one after the other (see [`follow_step`]).
    Playlists,
    /// Nothing: items of this kind cannot be saved.
    Unsupported,
}

/// Tracks and albums are saved together, so every text must be an identifier
/// before anything is sent. Playlists are followed one by one and artists
/// are not saved at all: for these no text is looked at here.
pub open spec fn save_planned(
    kind: ItemType,
    texts: Seq<Seq<char>>,
    r: Result<SavePlan, IdFailure>,
) -> bool {
    match kind {
        ItemType::Track => match r {
            Ok(SavePlan::Tracks(ids)) => gathered(track_outcomes(texts), Ok(ids)),
            Err(f) => gathered(track_outcomes(texts), Err(f)),
            _ => false,
        },
        ItemType::Album => match r {
            Ok(SavePlan::Albums(ids)) => gathered(album_outcomes(texts), Ok(ids)),
            Err(f) => gathered(album_outcomes(texts), Err(f)),
            _ => false,
        },
        ItemType::Playlist => r == Ok::<SavePlan, IdFailure>(SavePlan::Playlists),
        ItemType::Artist => r == Ok::<SavePlan, IdFailure>(SavePlan::Unsupported),
    }
}

/// Decides what saving the given items asks of the service.
pub fn plan_save(kind: ItemType, ids: &Vec<String>) -> (r: Result<SavePlan, IdFailure>)
    ensures
        save_planned(kind, ids.deep_view(), r),
{
    match kind {
        ItemType::Track => match parse_tracks(ids) {
            Ok(found) => Ok(SavePlan::Tracks(found)),
            Err(f) => Err(f),
        },
        ItemType::Album => match parse_albums(ids) {
            Ok(found) => Ok(SavePlan::Albums(found)),
            Err(f) => Err(f),
        },
        ItemType::Playlist => Ok(SavePlan::Playlists),
        ItemType::Artist => Ok(SavePlan::Unsupported),
    }
}

/// The next thing to do while following playlists one by one.
#[derive(Clone, Debug, PartialEq, Eq)]
pub enum FollowStep {
    /// Follow the playlist with this id, then ask again with one more done.
    Follow(String),
    /// Stop: the text at this position is not a playlist.
    Reject(IdFailure),
    /// Every playlist has been followed.
    Finished,
}

/// [`FollowStep`] as a mathematical value.
pub enum FollowStepView {
    Follow(Seq<char>),
    Reject(IdFailure),
    Finished,
}

impl View for FollowStep {
    type V = FollowStepView;

    open spec fn view(&self) -> FollowStepView {
        match self {
            FollowStep::Follow(id) => FollowStepView::Follow(id@),
            FollowStep::Reject(f) => FollowStepView::Reject(*f),
            FollowStep::Finished => FollowStepView::Finished,
        }
    }
}

/// The step that the outcome for the text at `index` leads to.
pub open spec fn step_after(index: usize, outcome: Result<Seq<char>, IdProblem>) -> FollowStepView {
    match outcome {
        Ok(id) => FollowStepView::Follow(id),
        Err(problem) => FollowStepView::Reject(IdFailure { index, problem }),
    }
}

/// The step when `done` of the playlists named by `texts` have been followed.
pub open spec fn next_follow(texts: Seq<Seq<char>>, done: usize) -> FollowStepView {
    if done < texts.len() {
        step_after(done, playlist_id_of(texts[done as int]))
    } else {
        FollowStepView::Finished
    }
}

/// The step that follows from what the text at `index` turned out to be.
pub fn after_parse(index: usize, outcome: Result<String, IdProblem>) -> (r: FollowStep)
    ensures
        r@ == step_after(index, outcome_view(outcome)),
{
    match outcome {
        Ok(id) => FollowStep::Follow(id),
        Err(problem) => FollowStep::Reject(IdFailure { index, problem }),
    }
}

/// The next step when the first `done` playlists of `ids` have been
/// followed. A text is looked at only when its turn has come, so the
/// playlists before a text that is no identifier are still followed.
pub fn follow_step(ids: &Vec<String>, done: usize) -> (r: FollowStep)
    ensures
        r@ == next_follow(ids.deep_view(), done),
{
    if done < ids.len() {
        after_parse(done, parse_playlist(ids[done].as_str()))
    } else {
        FollowStep::Finished
    }
}

/// The report after saving: the kind, how many items were named and the
/// texts that named them. For artists it is an error report.
pub open spec fn saved_doc(kind: ItemType, texts: Seq<Seq<char>>) -> JsonValue {
    match kind {
        ItemType::Artist => error_doc("saving artists is not supported; use 'follow' instead"@),
        _ => JsonValue::Object(
            no_fields()
                .insert("type"@, JsonValue::Text(kind.name()))
                .insert("saved"@, JsonValue::Number(texts.len() as int))
                .insert("ids"@, text_array(texts)),
        ),
    }
}

/// The report that the save command prints.
pub fn save_report(kind: ItemType, ids: &Vec<String>) -> (r: serde_json::Value)
    ensures
        json_of(r) == saved_doc(kind, ids.deep_view()),
{
    match kind {
        ItemType::Artist => error_report("saving artists is not supported; use 'follow' instead"),
        _ => {
            let mut m = new_fields();
            put_field(&mut m, "type", text(kind.label()));
            put_field(&mut m, "saved", unsigned(ids.len() as u64));
            put_field(&mut m, "ids", texts(ids));
            object(m)
        },
    }
}

} // verus!
