//! The parts of the streaming service's answers that the reports read, held
//! as plain values, each with its mathematical view.

use vstd::prelude::*;

verus! {

/// A link to an object on some site, such as `("spotify", "https://...")`.
/// Where a list of links names a site more than once, its first link counts.
#[derive(Clone, Debug, PartialEq, Eq)]
pub struct Link {
    pub site: String,
    pub url: String,
}

/// [`Link`] as a mathematical value.
pub struct LinkView {
    pub site: Seq<char>,
    pub url: Seq<char>,
}

impl DeepView for Link {
    type V = LinkView;

    open spec fn deep_view(&self) -> LinkView {
        LinkView { site: self.site@, url: self.url@ }
    }
}

impl View for Link {
    type V = LinkView;

    open spec fn view(&self) -> LinkView {
        self.deep_view()
    }
}

/// A track. A local track has no id.
#[derive(Clone, Debug, PartialEq, Eq)]
pub struct TrackInfo {
    pub id: Option<String>,
    pub name: String,
    pub artists: Vec<String>,
    pub album: String,
    pub duration_ms: i64,
}

/// [`TrackInfo`] as a mathematical value.
pub struct TrackView {
    pub id: Option<Seq<char>>,
    pub name: Seq<char>,
    pub artists: Seq<Seq<char>>,
    pub album: Seq<char>,
    pub duration_ms: int,
}

impl DeepView for TrackInfo {
    type V = TrackView;

    open spec fn deep_view(&self) -> TrackView {
        TrackView {
            id: self.id.deep_view(),
            name: self.name@,
            artists: self.artists.deep_view(),
            album: self.album@,
            duration_ms: self.duration_ms as int,
        }
    }
}

impl View for TrackInfo {
    type V = TrackView;

    open spec fn view(&self) -> TrackView {
        self.deep_view()
    }
}

/// An album as a search lists it.
#[derive(Clone, Debug, PartialEq, Eq)]
pub struct AlbumInfo {
    pub id: Option<String>,
    pub name: String,
    pub artists: Vec<String>,
    pub release_date: Option<String>,
}

/// [`AlbumInfo`] as a mathematical value.
pub struct AlbumView {
    pub id: Option<Seq<char>>,
    pub name: Seq<char>,
    pub artists: Seq<Seq<char>>,
    pub release_date: Option<Seq<char>>,
}

impl DeepView for AlbumInfo {
    type V = AlbumView;

    open spec fn deep_view(&self) -> AlbumView {
        AlbumView {
            id: self.id.deep_view(),
            name: self.name@,
            artists: self.artists.deep_view(),
            release_date: self.release_date.deep_view(),
        }
    }
}

impl View for AlbumInfo {
    type V = AlbumView;

    open spec fn view(&self) -> AlbumView {
        self.deep_view()
    }
}

/// An artist as a search lists it.
#[derive(Clone, Debug, PartialEq, Eq)]
pub struct ArtistInfo {
    pub id: String,
    pub name: String,
    pub genres: Vec<String>,
    pub followers: u32,
    pub popularity: u32,
}

/// [`ArtistInfo`] as a mathematical value.
pub struct ArtistView {
    pub id: Seq<char>,
    pub name: Seq<char>,
    pub genres: Seq<Seq<char>>,
    pub followers: int,
    pub popularity: int,
}

impl DeepView for ArtistInfo {
    type V = ArtistView;

    open spec fn deep_view(&self) -> ArtistView {
        ArtistView {
            id: self.id@,
            name: self.name@,
            genres: self.genres.deep_view(),
            followers: self.followers as int,
            popularity: self.popularity as int,
        }
    }
}

impl View for ArtistInfo {
    type V = ArtistView;

    open spec fn view(&self) -> ArtistView {
        self.deep_view()
    }
}

/// A playlist as a search or the user's own list shows it. The service may
/// leave out whether it is public and what its owner is called.
#[derive(Clone, Debug, PartialEq, Eq)]
pub struct PlaylistInfo {
    pub id: String,
    pub name: String,
    pub tracks: u32,
    pub public: Option<bool>,
    pub owner: Option<String>,
    pub links: Vec<Link>,
}

/// [`PlaylistInfo`] as a mathematical value.
pub struct PlaylistView {
    pub id: Seq<char>,
    pub name: Seq<char>,
    pub tracks: int,
    pub public: Option<bool>,
    pub owner: Option<Seq<char>>,
    pub links: Seq<LinkView>,
}

impl DeepView for PlaylistInfo {
    type V = PlaylistView;

    open spec fn deep_view(&self) -> PlaylistView {
        PlaylistView {
            id: self.id@,
            name: self.name@,
            tracks: self.tracks as int,
            public: self.public,
            owner: self.owner.deep_view(),
            links: self.links.deep_view(),
        }
    }
}

impl View for PlaylistInfo {
    type V = PlaylistView;

    open spec fn view(&self) -> PlaylistView {
        self.deep_view()
    }
}

/// A podcast episode inside a playlist.
#[derive(Clone, Debug, PartialEq, Eq)]
pub struct EpisodeInfo {
    pub id: String,
    pub name: String,
    pub show: String,
    pub duration_ms: i64,
}

/// [`EpisodeInfo`] as a mathematical value.
pub struct EpisodeView {
    pub id: Seq<char>,
    pub name: Seq<char>,
    pub show: Seq<char>,
    pub duration_ms: int,
}

impl DeepView for EpisodeInfo {
    type V = EpisodeView;

    open spec fn deep_view(&self) -> EpisodeView {
        EpisodeView {
            id: self.id@,
            name: self.name@,
            show: self.show@,
            duration_ms: self.duration_ms as int,
        }
    }
}

impl View for EpisodeInfo {
    type V = EpisodeView;

    open spec fn view(&self) -> EpisodeView {
        self.deep_view()
    }
}

/// What a playlist entry refers to: a track, an episode, or something the
/// service sent that is neither.
#[derive(Clone, Debug, PartialEq, Eq)]
pub enum Playable {
    Track(TrackInfo),
    Episode(EpisodeInfo),
    Unknown,
}

/// [`Playable`] as a mathematical value.
pub enum PlayableView {
    Track(TrackView),
    Episode(EpisodeView),
    Unknown,
}

impl DeepView for Playable {
    type V = PlayableView;

    open spec fn deep_view(&self) -> PlayableView {
        match self {
            Playable::Track(t) => PlayableView::Track(t.deep_view()),
            Playable::Episode(e) => PlayableView::Episode(e.deep_view()),
            Playable::Unknown => PlayableView::Unknown,
        }
    }
}

impl View for Playable {
    type V = PlayableView;

    open spec fn view(&self) -> PlayableView {
        self.deep_view()
    }
}

/// A playlist with its entries. An entry is `None` where the service sent a
/// slot without an item.
#[derive(Clone, Debug, PartialEq, Eq)]
pub struct PlaylistDetail {
    pub id: String,
    pub name: String,
    pub owner: Option<String>,
    pub public: Option<bool>,
    pub collaborative: bool,
    pub followers: u32,
    pub description: Option<String>,
    pub links: Vec<Link>,
    pub total_tracks: u32,
    pub entries: Vec<Option<Playable>>,
}

/// [`PlaylistDetail`] as a mathematical value.
pub struct PlaylistDetailView {
    pub id: Seq<char>,
    pub name: Seq<char>,
    pub owner: Option<Seq<char>>,
    pub public: Option<bool>,
    pub collaborative: bool,
    pub followers: int,
    pub description: Option<Seq<char>>,
    pub links: Seq<LinkView>,
    pub total_tracks: int,
    pub entries: Seq<Option<PlayableView>>,
}

impl DeepView for PlaylistDetail {
    type V = PlaylistDetailView;

    open spec fn deep_view(&self) -> PlaylistDetailView {
        PlaylistDetailView {
            id: self.id@,
            name: self.name@,
            owner: self.owner.deep_view(),
            public: self.public,
            collaborative: self.collaborative,
            followers: self.followers as int,
            description: self.description.deep_view(),
            links: self.links.deep_view(),
            total_tracks: self.total_tracks as int,
            entries: self.entries.deep_view(),
        }
    }
}

impl View for PlaylistDetail {
    type V = PlaylistDetailView;

    open spec fn view(&self) -> PlaylistDetailView {
        self.deep_view()
    }
}

/// A playlist that was just created.
#[derive(Clone, Debug, PartialEq, Eq)]
pub struct CreatedPlaylist {
    pub id: String,
    pub name: String,
    pub public: Option<bool>,
    pub description: Option<String>,
    pub links: Vec<Link>,
}

/// [`CreatedPlaylist`] as a mathematical value.
pub struct CreatedPlaylistView {
    pub id: Seq<char>,
    pub name: Seq<char>,
    pub public: Option<bool>,
    pub description: Option<Seq<char>>,
    pub links: Seq<LinkView>,
}

impl DeepView for CreatedPlaylist {
    type V = CreatedPlaylistView;

    open spec fn deep_view(&self) -> CreatedPlaylistView {
        CreatedPlaylistView {
            id: self.id@,
            name: self.name@,
            public: self.public,
            description: self.description.deep_view(),
            links: self.links.deep_view(),
        }
    }
}

impl View for CreatedPlaylist {
    type V = CreatedPlaylistView;

    open spec fn view(&self) -> CreatedPlaylistView {
        self.deep_view()
    }
}

/// The answer to a search: one page of one kind of item with the total the
/// service reports, or a kind that the reports do not cover.
#[derive(Clone, Debug, PartialEq, Eq)]
pub enum SearchFound {
    Tracks { total: u32, items: Vec<TrackInfo> },
    Albums { total: u32, items: Vec<AlbumInfo> },
    Artists { total: u32, items: Vec<ArtistInfo> },
    Playlists { total: u32, items: Vec<PlaylistInfo> },
    Other,
}

/// [`SearchFound`] as a mathematical value.
pub enum SearchFoundView {
    Tracks { total: int, items: Seq<TrackView> },
    Albums { total: int, items: Seq<AlbumView> },
    Artists { total: int, items: Seq<ArtistView> },
    Playlists { total: int, items: Seq<PlaylistView> },
    Other,
}

impl DeepView for SearchFound {
    type V = SearchFoundView;

    open spec fn deep_view(&self) -> SearchFoundView {
        match self {
            SearchFound::Tracks { total, items } => SearchFoundView::Tracks {
                total: *total as int,
                items: items.deep_view(),
            },
            SearchFound::Albums { total, items } => SearchFoundView::Albums {
                total: *total as int,
                items: items.deep_view(),
            },
            SearchFound::Artists { total, items } => SearchFoundView::Artists {
                total: *total as int,
                items: items.deep_view(),
            },
            SearchFound::Playlists { total, items } => SearchFoundView::Playlists {
                total: *total as int,
                items: items.deep_view(),
            },
            SearchFound::Other => SearchFoundView::Other,
        }
    }
}

impl View for SearchFound {
    type V = SearchFoundView;

    open spec fn view(&self) -> SearchFoundView {
        self.deep_view()
    }
}

} // verus!
