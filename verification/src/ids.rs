//! Identifiers of tracks, albums and playlists, as the user types them: a
//! bare id or a URI. `rspotify` decides what is valid and which id a text
//! stands for; this module names its answers and handles lists of them.

use vstd::prelude::*;

verus! {

/// Why a text is not an identifier of the expected kind.
#[derive(Clone, Copy, Debug, PartialEq, Eq, Structural)]
pub enum IdProblem {
    InvalidPrefix,
    InvalidFormat,
    InvalidType,
    InvalidId,
}

/// The first text of a list that is not an identifier: its position and
/// what is wrong with it.
#[derive(Clone, Copy, Debug, PartialEq, Eq, Structural)]
pub struct IdFailure {
    pub index: usize,
    pub problem: IdProblem,
}

/// What `rspotify`'s `TrackId::from_id_or_uri` makes of a text: the id it
/// stands for, or the reason why it stands for none.
pub uninterp spec fn track_id_of(text: Seq<char>) -> Result<Seq<char>, IdProblem>;

/// What `rspotify`'s `AlbumId::from_id_or_uri` makes of a text.
pub uninterp spec fn album_id_of(text: Seq<char>) -> Result<Seq<char>, IdProblem>;

/// What `rspotify`'s `PlaylistId::from_id_or_uri` makes of a text.
pub uninterp spec fn playlist_id_of(text: Seq<char>) -> Result<Seq<char>, IdProblem>;

/// The view of one parsing outcome.
pub open spec fn outcome_view(r: Result<String, IdProblem>) -> Result<Seq<char>, IdProblem> {
    match r {
        Ok(id) => Ok(id@),
        Err(p) => Err(p),
    }
}

/// The views of a sequence of parsing outcomes.
pub open spec fn outcomes_view(rs: Seq<Result<String, IdProblem>>) -> Seq<
    Result<Seq<char>, IdProblem>,
> {
    Seq::new(rs.len(), |i: int| outcome_view(rs[i]))
}

/// Trusted: calls `rspotify::model::TrackId::from_id_or_uri` and hands back
/// the id inside the result (`Id::id`) or the error, variant for variant. The
/// call is a function of the text alone and does not panic.
#[verifier::external_body]
pub(crate) fn track_id(text: &str) -> (r: Result<String, IdProblem>)
    ensures
        outcome_view(r) == track_id_of(text@),
{
    match rspotify::model::TrackId::from_id_or_uri(text) {
        Ok(id) => Ok(rspotify::model::Id::id(&id).to_string()),
        Err(rspotify::model::IdError::InvalidPrefix) => Err(IdProblem::InvalidPrefix),
        Err(rspotify::model::IdError::InvalidFormat) => Err(IdProblem::InvalidFormat),
        Err(rspotify::model::IdError::InvalidType) => Err(IdProblem::InvalidType),
        Err(rspotify::model::IdError::InvalidId) => Err(IdProblem::InvalidId),
    }
}

/// Trusted: calls `rspotify::model::AlbumId::from_id_or_uri` and hands back
/// the id inside the result (`Id::id`) or the error, variant for variant. The
/// call is a function of the text alone and does not panic.
#[verifier::external_body]
pub(crate) fn album_id(text: &str) -> (r: Result<String, IdProblem>)
    ensures
        outcome_view(r) == album_id_of(text@),
{
    match rspotify::model::AlbumId::from_id_or_uri(text) {
        Ok(id) => Ok(rspotify::model::Id::id(&id).to_string()),
        Err(rspotify::model::IdError::InvalidPrefix) => Err(IdProblem::InvalidPrefix),
        Err(rspotify::model::IdError::InvalidFormat) => Err(IdProblem::InvalidFormat),
        Err(rspotify::model::IdError::InvalidType) => Err(IdProblem::InvalidType),
        Err(rspotify::model::IdError::InvalidId) => Err(IdProblem::InvalidId),
    }
}

/// Trusted: calls `rspotify::model::PlaylistId::from_id_or_uri` and hands
/// back the id inside the result (`Id::id`) or the error, variant for
/// variant. The call is a function of the text alone and does not panic.
#[verifier::external_body]
pub(crate) fn playlist_id(text: &str) -> (r: Result<String, IdProblem>)
    ensures
        outcome_view(r) == playlist_id_of(text@),
{
    match rspotify::model::PlaylistId::from_id_or_uri(text) {
        Ok(id) => Ok(rspotify::model::Id::id(&id).to_string()),
        Err(rspotify::model::IdError::InvalidPrefix) => Err(IdProblem::InvalidPrefix),
        Err(rspotify::model::IdError::InvalidFormat) => Err(IdProblem::InvalidFormat),
        Err(rspotify::model::IdError::InvalidType) => Err(IdProblem::InvalidType),
        Err(rspotify::model::IdError::InvalidId) => Err(IdProblem::InvalidId),
    }
}

/// `i` is the first position of `outcomes` that holds a failure.
pub open spec fn first_failure_at(outcomes: Seq<Result<Seq<char>, IdProblem>>, i: int) -> bool {
    &&& 0 <= i < outcomes.len()
    &&& outcomes[i] is Err
    &&& forall|j: int| 0 <= j < i ==> (#[trigger] outcomes[j]) is Ok
}

/// No position of `outcomes` holds a failure.
pub open spec fn all_ok(outcomes: Seq<Result<Seq<char>, IdProblem>>) -> bool {
    forall|j: int| 0 <= j < outcomes.len() ==> (#[trigger] outcomes[j]) is Ok
}

/// What a list of texts comes to, given the outcome of each: all the ids in
/// the order of the texts where every text is an identifier, else the first
/// failure.
pub open spec fn gathered(
    outcomes: Seq<Result<Seq<char>, IdProblem>>,
    r: Result<Vec<String>, IdFailure>,
) -> bool {
    match r {
        Ok(ids) => {
            &&& all_ok(outcomes)
            &&& ids.deep_view() == Seq::new(outcomes.len(), |i: int| outcomes[i]->Ok_0)
        },
        Err(f) => {
            &&& first_failure_at(outcomes, f.index as int)
            &&& outcomes[f.index as int] == Err::<Seq<char>, IdProblem>(f.problem)
        },
    }
}

/// The outcomes decide the result. Two results that both fit the same
/// outcomes are the same: both hold the same ids, or both name the same
/// failure.
pub proof fn gathered_is_decided(
    outcomes: Seq<Result<Seq<char>, IdProblem>>,
    first: Result<Vec<String>, IdFailure>,
    second: Result<Vec<String>, IdFailure>,
)
    requires
        gathered(outcomes, first),
        gathered(outcomes, second),
    ensures
        match (first, second) {
            (Ok(a), Ok(b)) => a.deep_view() == b.deep_view(),
            (Err(f), Err(g)) => f == g,
            _ => false,
        },
{
    match (first, second) {
        (Err(f), Err(g)) => {
            assert(f.index == g.index) by {
                if f.index < g.index {
                    assert(outcomes[f.index as int] is Ok);
                } else if g.index < f.index {
                    assert(outcomes[g.index as int] is Ok);
                }
            }
        },
        (Ok(_), Err(g)) => {
            assert(outcomes[g.index as int] is Ok);
        },
        (Err(f), Ok(_)) => {
            assert(outcomes[f.index as int] is Ok);
        },
        (Ok(_), Ok(_)) => {},
    }
}

/// Gathers the outcomes for a list of texts: every id, or the first failure.
pub fn gather(outcomes: &Vec<Result<String, IdProblem>>) -> (r: Result<Vec<String>, IdFailure>)
    ensures
        gathered(outcomes_view(outcomes@), r),
{
    let ghost views = outcomes_view(outcomes@);
    let mut ids: Vec<String> = Vec::new();
    let mut i: usize = 0;
    while i < outcomes.len()
        invariant
            i <= outcomes.len(),
            views == outcomes_view(outcomes@),
            ids@.len() == i,
            forall|j: int| 0 <= j < i ==> (#[trigger] views[j]) is Ok,
            forall|j: int| 0 <= j < i ==> (#[trigger] ids@[j])@ == views[j]->Ok_0,
        decreases outcomes.len() - i,
    {
        match &outcomes[i] {
            Ok(id) => {
                ids.push(id.clone());
            },
            Err(p) => {
                return Err(IdFailure { index: i, problem: *p });
            },
        }
        i += 1;
    }
    assert(ids.deep_view() =~= Seq::new(views.len(), |i: int| views[i]->Ok_0));
    Ok(ids)
}

/// What `rspotify` makes of each text as a track.
pub open spec fn track_outcomes(texts: Seq<Seq<char>>) -> Seq<Result<Seq<char>, IdProblem>> {
    Seq::new(texts.len(), |i: int| track_id_of(texts[i]))
}

/// What `rspotify` makes of each text as an album.
pub open spec fn album_outcomes(texts: Seq<Seq<char>>) -> Seq<Result<Seq<char>, IdProblem>> {
    Seq::new(texts.len(), |i: int| album_id_of(texts[i]))
}

/// The track behind one text.
pub fn parse_track(text: &str) -> (r: Result<String, IdProblem>)
    ensures
        outcome_view(r) == track_id_of(text@),
{
    track_id(text)
}

/// The album behind one text.
pub fn parse_album(text: &str) -> (r: Result<String, IdProblem>)
    ensures
        outcome_view(r) == album_id_of(text@),
{
    album_id(text)
}

/// The playlist behind one text.
pub fn parse_playlist(text: &str) -> (r: Result<String, IdProblem>)
    ensures
        outcome_view(r) == playlist_id_of(text@),
{
    playlist_id(text)
}

/// The tracks behind a list of texts: all their ids in order, or the first
/// text that is not a track.
pub fn parse_tracks(texts: &Vec<String>) -> (r: Result<Vec<String>, IdFailure>)
    ensures
        gathered(track_outcomes(texts.deep_view()), r),
{
    let mut outcomes: Vec<Result<String, IdProblem>> = Vec::new();
    let mut i: usize = 0;
    while i < texts.len()
        invariant
            i <= texts.len(),
            outcomes@.len() == i,
            forall|j: int|
                0 <= j < i ==> outcome_view(#[trigger] outcomes@[j]) == track_id_of(texts@[j]@),
        decreases texts.len() - i,
    {
        outcomes.push(track_id(texts[i].as_str()));
        i += 1;
    }
    assert(outcomes_view(outcomes@) =~= track_outcomes(texts.deep_view()));
    gather(&outcomes)
}

/// The albums behind a list of texts: all their ids in order, or the first
/// text that is not an album.
pub fn parse_albums(texts: &Vec<String>) -> (r: Result<Vec<String>, IdFailure>)
    ensures
        gathered(album_outcomes(texts.deep_view()), r),
{
    let mut outcomes: Vec<Result<String, IdProblem>> = Vec::new();
    let mut i: usize = 0;
    while i < texts.len()
        invariant
            i <= texts.len(),
            outcomes@.len() == i,
            forall|j: int|
                0 <= j < i ==> outcome_view(#[trigger] outcomes@[j]) == album_id_of(texts@[j]@),
        decreases texts.len() - i,
    {
        outcomes.push(album_id(texts[i].as_str()));
        i += 1;
    }
    assert(outcomes_view(outcomes@) =~= album_outcomes(texts.deep_view()));
    gather(&outcomes)
}

} // verus!
