use spores::catalog::{
    CreatedPlaylist, EpisodeInfo, Link, Playable, PlaylistDetail, PlaylistInfo, TrackInfo,
};
use spores::ids::{IdFailure, IdProblem};
use spores::listing::{Listing, ListingStep, PageRequest, PlaylistPage, PAGE_SIZE};
use spores::playlist::{
    added_report, created_report, decide_add, plan_add, playable_entry, playlist_report, AddPlan,
    AddRefusal,
};

fn owned(items: &[&str]) -> Vec<String> {
    items.iter().map(|s| s.to_string()).collect()
}

fn parsed(text: &str) -> serde_json::Value {
    serde_json::from_str(text).unwrap()
}

fn home(url: &str) -> Vec<Link> {
    vec![Link { site: "spotify".to_string(), url: url.to_string() }]
}

fn row(n: u32) -> PlaylistInfo {
    PlaylistInfo {
        id: format!("spotify:playlist:{}", n),
        name: format!("List {}", n),
        tracks: n,
        public: if n % 2 == 0 { Some(true) } else { None },
        owner: if n % 3 == 0 { None } else { Some("me".to_string()) },
        links: home(&format!("https://open.spotify.com/playlist/{}", n)),
    }
}

#[test]
fn playlist_report_skips_empty_slots_and_keeps_order() {
    let detail = PlaylistDetail {
        id: "spotify:playlist:37i9dQZF1DX0XUsuxWHRQd".to_string(),
        name: "Mixed".to_string(),
        owner: None,
        public: None,
        collaborative: true,
        followers: 12,
        description: None,
        links: vec![],
        total_tracks: 5,
        entries: vec![
            None,
            Some(Playable::Episode(EpisodeInfo {
                id: "spotify:episode:0lbiy3LKzIY2fnyjioC11p".to_string(),
                name: "Pilot".to_string(),
                show: "A Show".to_string(),
                duration_ms: 1800000,
            })),
            Some(Playable::Unknown),
            None,
            Some(Playable::Track(TrackInfo {
                id: None,
                name: "Local".to_string(),
                artists: vec!["Me".to_string()],
                album: "Tapes".to_string(),
                duration_ms: 1,
            })),
        ],
    };
    let expected = parsed(
        r#"{
            "id": "spotify:playlist:37i9dQZF1DX0XUsuxWHRQd",
            "name": "Mixed",
            "owner": "unknown",
            "public": false,
            "collaborative": true,
            "followers": 12,
            "description": null,
            "url": null,
            "total_tracks": 5,
            "tracks": [
                {
                    "type": "episode",
                    "id": "spotify:episode:0lbiy3LKzIY2fnyjioC11p",
                    "name": "Pilot",
                    "show": "A Show",
                    "duration_ms": 1800000
                },
                {"type": "unknown"},
                {
                    "type": "track",
                    "id": null,
                    "name": "Local",
                    "artists": ["Me"],
                    "album": "Tapes",
                    "duration_ms": 1
                }
            ]
        }"#,
    );
    assert_eq!(playlist_report(&detail), expected);
}

#[test]
fn playlist_report_with_known_owner_and_link() {
    let detail = PlaylistDetail {
        id: "spotify:playlist:1".to_string(),
        name: "Plain".to_string(),
        owner: Some("someone".to_string()),
        public: Some(true),
        collaborative: false,
        followers: 0,
        description: Some("all of it".to_string()),
        links: home("https://open.spotify.com/playlist/1"),
        total_tracks: 0,
        entries: vec![],
    };
    let expected = parsed(
        r#"{
            "id": "spotify:playlist:1",
            "name": "Plain",
            "owner": "someone",
            "public": true,
            "collaborative": false,
            "followers": 0,
            "description": "all of it",
            "url": "https://open.spotify.com/playlist/1",
            "total_tracks": 0,
            "tracks": []
        }"#,
    );
    assert_eq!(playlist_report(&detail), expected);
}

#[test]
fn playable_entry_of_a_track_names_its_type() {
    let track = Playable::Track(TrackInfo {
        id: Some("spotify:track:4iV5W9uYEdYUVa79Axb7Rh".to_string()),
        name: "Halcyon".to_string(),
        artists: vec![],
        album: "Orbital 2".to_string(),
        duration_ms: 567000,
    });
    let expected = parsed(
        r#"{"type": "track", "id": "spotify:track:4iV5W9uYEdYUVa79Axb7Rh", "name": "Halcyon",
            "artists": [], "album": "Orbital 2", "duration_ms": 567000}"#,
    );
    assert_eq!(playable_entry(&track), expected);
}

#[test]
fn created_report_shows_the_new_playlist() {
    let created = CreatedPlaylist {
        id: "spotify:playlist:59ZbFPES4DQwEjBpWHzrtC".to_string(),
        name: "Fresh".to_string(),
        public: Some(false),
        description: Some("new".to_string()),
        links: home("https://open.spotify.com/playlist/59ZbFPES4DQwEjBpWHzrtC"),
    };
    let expected = parsed(
        r#"{
            "id": "spotify:playlist:59ZbFPES4DQwEjBpWHzrtC",
            "name": "Fresh",
            "public": false,
            "description": "new",
            "url": "https://open.spotify.com/playlist/59ZbFPES4DQwEjBpWHzrtC"
        }"#,
    );
    assert_eq!(created_report(&created), expected);
    let bare = CreatedPlaylist {
        id: "spotify:playlist:0".to_string(),
        name: "".to_string(),
        public: None,
        description: None,
        links: vec![],
    };
    assert_eq!(
        created_report(&bare),
        parsed(
            r#"{"id": "spotify:playlist:0", "name": "", "public": false, "description": null,
                "url": null}"#
        )
    );
}

#[test]
fn adding_parses_playlist_and_tracks() {
    let tracks = owned(&["spotify:track:4iV5W9uYEdYUVa79Axb7Rh", "5iKndSu1XI74U2OZePzP8L"]);
    assert_eq!(
        plan_add("spotify:playlist:37i9dQZF1DX0XUsuxWHRQd", &tracks),
        Ok(AddPlan {
            playlist: "37i9dQZF1DX0XUsuxWHRQd".to_string(),
            tracks: owned(&["4iV5W9uYEdYUVa79Axb7Rh", "5iKndSu1XI74U2OZePzP8L"]),
        })
    );
}

#[test]
fn adding_refuses_a_bad_playlist_before_any_track() {
    let tracks = owned(&["???", "5iKndSu1XI74U2OZePzP8L"]);
    assert_eq!(
        plan_add("spotify:track:4iV5W9uYEdYUVa79Axb7Rh", &tracks),
        Err(AddRefusal::Playlist(IdProblem::InvalidType))
    );
}

#[test]
fn adding_refuses_the_first_bad_track() {
    let tracks = owned(&["5iKndSu1XI74U2OZePzP8L", "spotify:track", "???"]);
    assert_eq!(
        plan_add("37i9dQZF1DX0XUsuxWHRQd", &tracks),
        Err(AddRefusal::Track(IdFailure { index: 1, problem: IdProblem::InvalidFormat }))
    );
}

#[test]
fn add_decision_from_given_outcomes() {
    assert_eq!(
        decide_add(Ok("p".to_string()), Ok(owned(&["a", "b"]))),
        Ok(AddPlan { playlist: "p".to_string(), tracks: owned(&["a", "b"]) })
    );
    assert_eq!(
        decide_add(
            Err(IdProblem::InvalidId),
            Err(IdFailure { index: 0, problem: IdProblem::InvalidType })
        ),
        Err(AddRefusal::Playlist(IdProblem::InvalidId))
    );
    assert_eq!(
        decide_add(
            Ok("p".to_string()),
            Err(IdFailure { index: 3, problem: IdProblem::InvalidType })
        ),
        Err(AddRefusal::Track(IdFailure { index: 3, problem: IdProblem::InvalidType }))
    );
}

#[test]
fn added_report_echoes_playlist_text_and_count() {
    let tracks = owned(&["a", "b", "c"]);
    assert_eq!(
        added_report("spotify:playlist:37i9dQZF1DX0XUsuxWHRQd", &tracks, "MTIsYWJj"),
        parsed(
            r#"{"playlist": "spotify:playlist:37i9dQZF1DX0XUsuxWHRQd", "added": 3,
                "snapshot_id": "MTIsYWJj"}"#
        )
    );
}

#[test]
fn listing_starts_at_offset_zero() {
    let listing = Listing::new();
    assert_eq!(PAGE_SIZE, 50);
    assert_eq!(listing.request(), PageRequest { limit: 50, offset: 0 });
    assert_eq!(listing.report(), parsed(r#"{"total": 0, "playlists": []}"#));
}

#[test]
fn listing_advances_one_page_at_a_time() {
    let mut listing = Listing::new();
    let first = PlaylistPage { items: vec![row(1), row(2)], next: Some("more".to_string()) };
    assert!(listing.can_absorb(&first));
    assert_eq!(listing.absorb(first), ListingStep::Fetch(PageRequest { limit: 50, offset: 50 }));
    assert_eq!(listing.request(), PageRequest { limit: 50, offset: 50 });
    let second = PlaylistPage { items: vec![], next: Some("more".to_string()) };
    assert_eq!(listing.absorb(second), ListingStep::Fetch(PageRequest { limit: 50, offset: 100 }));
    let last = PlaylistPage { items: vec![row(3)], next: None };
    assert!(listing.can_absorb(&last));
    assert_eq!(listing.absorb(last), ListingStep::Done);
    assert_eq!(listing.request(), PageRequest { limit: 50, offset: 100 });
    let expected = parsed(
        r#"{
            "total": 3,
            "playlists": [
                {"id": "spotify:playlist:1", "name": "List 1", "tracks": 1, "public": false,
                 "owner": "me", "url": "https://open.spotify.com/playlist/1"},
                {"id": "spotify:playlist:2", "name": "List 2", "tracks": 2, "public": true,
                 "owner": "me", "url": "https://open.spotify.com/playlist/2"},
                {"id": "spotify:playlist:3", "name": "List 3", "tracks": 3, "public": false,
                 "owner": "unknown", "url": "https://open.spotify.com/playlist/3"}
            ]
        }"#,
    );
    assert_eq!(listing.report(), expected);
}

#[test]
fn listing_has_room_until_the_offset_would_overflow() {
    let mut listing = Listing::new();
    while listing.request().offset <= u32::MAX - 50 {
        let page = PlaylistPage { items: Vec::new(), next: Some(String::new()) };
        assert!(listing.can_absorb(&page));
        listing.absorb(page);
    }
    assert_eq!(listing.request().offset, 4294967250);
    let more = PlaylistPage { items: vec![row(1)], next: Some("more".to_string()) };
    assert!(!listing.can_absorb(&more));
    let last = PlaylistPage { items: vec![row(1)], next: None };
    assert!(listing.can_absorb(&last));
    assert_eq!(listing.absorb(last), ListingStep::Done);
    assert_eq!(listing.request().offset, 4294967250);
}
