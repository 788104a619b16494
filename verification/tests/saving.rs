use spores::command::ItemType;
use spores::ids::{IdFailure, IdProblem};
use spores::save::{after_parse, follow_step, plan_save, save_report, FollowStep, SavePlan};

fn owned(items: &[&str]) -> Vec<String> {
    items.iter().map(|s| s.to_string()).collect()
}

fn parsed(text: &str) -> serde_json::Value {
    serde_json::from_str(text).unwrap()
}

#[test]
fn tracks_are_saved_in_one_request() {
    let ids = owned(&["spotify:track:4iV5W9uYEdYUVa79Axb7Rh", "5iKndSu1XI74U2OZePzP8L"]);
    assert_eq!(
        plan_save(ItemType::Track, &ids),
        Ok(SavePlan::Tracks(owned(&["4iV5W9uYEdYUVa79Axb7Rh", "5iKndSu1XI74U2OZePzP8L"])))
    );
}

#[test]
fn albums_are_saved_in_one_request() {
    let ids = owned(&["spotify:album:6akEvsycLGftJxYudPjmqK"]);
    assert_eq!(
        plan_save(ItemType::Album, &ids),
        Ok(SavePlan::Albums(owned(&["6akEvsycLGftJxYudPjmqK"])))
    );
}

#[test]
fn one_bad_text_refuses_the_whole_batch() {
    let ids = owned(&["4iV5W9uYEdYUVa79Axb7Rh", "spotify:album:6akEvsycLGftJxYudPjmqK"]);
    assert_eq!(
        plan_save(ItemType::Track, &ids),
        Err(IdFailure { index: 1, problem: IdProblem::InvalidType })
    );
    let ids = owned(&["no good"]);
    assert_eq!(
        plan_save(ItemType::Album, &ids),
        Err(IdFailure { index: 0, problem: IdProblem::InvalidId })
    );
}

#[test]
fn playlists_and_artists_are_planned_without_parsing() {
    let ids = owned(&["no good"]);
    assert_eq!(plan_save(ItemType::Playlist, &ids), Ok(SavePlan::Playlists));
    assert_eq!(plan_save(ItemType::Artist, &ids), Ok(SavePlan::Unsupported));
}

#[test]
fn playlists_are_followed_in_order_until_done() {
    let ids = owned(&["spotify:playlist:37i9dQZF1DX0XUsuxWHRQd", "59ZbFPES4DQwEjBpWHzrtC"]);
    assert_eq!(follow_step(&ids, 0), FollowStep::Follow("37i9dQZF1DX0XUsuxWHRQd".to_string()));
    assert_eq!(follow_step(&ids, 1), FollowStep::Follow("59ZbFPES4DQwEjBpWHzrtC".to_string()));
    assert_eq!(follow_step(&ids, 2), FollowStep::Finished);
    assert_eq!(follow_step(&ids, 7), FollowStep::Finished);
    assert_eq!(follow_step(&vec![], 0), FollowStep::Finished);
}

#[test]
fn bad_playlist_is_rejected_when_its_turn_comes() {
    let ids = owned(&["37i9dQZF1DX0XUsuxWHRQd", "spotify:track:4iV5W9uYEdYUVa79Axb7Rh"]);
    assert_eq!(follow_step(&ids, 0), FollowStep::Follow("37i9dQZF1DX0XUsuxWHRQd".to_string()));
    assert_eq!(
        follow_step(&ids, 1),
        FollowStep::Reject(IdFailure { index: 1, problem: IdProblem::InvalidType })
    );
}

#[test]
fn step_after_parse_follows_or_rejects() {
    assert_eq!(after_parse(4, Ok("abc".to_string())), FollowStep::Follow("abc".to_string()));
    assert_eq!(
        after_parse(4, Err(IdProblem::InvalidFormat)),
        FollowStep::Reject(IdFailure { index: 4, problem: IdProblem::InvalidFormat })
    );
}

#[test]
fn save_report_echoes_kind_count_and_texts() {
    let ids = owned(&["spotify:track:4iV5W9uYEdYUVa79Axb7Rh", "5iKndSu1XI74U2OZePzP8L"]);
    assert_eq!(
        save_report(ItemType::Track, &ids),
        parsed(
            r#"{"type": "track", "saved": 2,
                "ids": ["spotify:track:4iV5W9uYEdYUVa79Axb7Rh", "5iKndSu1XI74U2OZePzP8L"]}"#
        )
    );
    assert_eq!(
        save_report(ItemType::Album, &owned(&["x"])),
        parsed(r#"{"type": "album", "saved": 1, "ids": ["x"]}"#)
    );
    assert_eq!(
        save_report(ItemType::Playlist, &vec![]),
        parsed(r#"{"type": "playlist", "saved": 0, "ids": []}"#)
    );
}

#[test]
fn saving_artists_reports_an_error() {
    assert_eq!(
        save_report(ItemType::Artist, &owned(&["2QI8e2Vwgg9KXOz2zjcrkI"])),
        parsed(r#"{"error": "saving artists is not supported; use 'follow' instead"}"#)
    );
}

#[test]
fn item_type_labels() {
    assert_eq!(ItemType::Track.label(), "track");
    assert_eq!(ItemType::Album.label(), "album");
    assert_eq!(ItemType::Artist.label(), "artist");
    assert_eq!(ItemType::Playlist.label(), "playlist");
}
