//! The result of one poll, as the display gets it.

use crate::features::TrackFeatures;
use vstd::prelude::*;
use vstd::string::*;

verus! {

/// What the service reported about the item that is playing.
#[derive(Clone, Debug, PartialEq, Eq)]
pub struct PlayingItem {
    pub name: String,
    /// The artists' names, the primary artist first.
    pub artists: Vec<String>,
    pub popularity: u32,
    pub id: Option<String>,
}

/// The service's answer to the question what is playing.
#[derive(Clone, Debug, PartialEq, Eq)]
pub enum Reported {
    /// The answer was empty: no playback at all.
    NoContext,
    /// There is a playback, but it holds no item.
    NoItem,
    /// The item that is playing is not a track.
    NotATrack,
    /// This track is playing.
    Track(PlayingItem),
}

/// A track that is playing.
#[derive(Clone, Debug, PartialEq, Eq)]
pub struct Track {
    pub name: String,
    /// The primary artist's name.
    pub artist: String,
    pub popularity: u32,
    pub id: Option<String>,
    pub features: Option<TrackFeatures>,
}

/// The result of one poll.
#[derive(Clone, Debug, PartialEq, Eq)]
pub enum TrackSnapshot {
    /// The account plays nothing.
    NothingPlaying,
    /// The account plays this track.
    Playing(Track),
    /// The poll failed: what is playing is not known.
    Unknown,
}

/// Why a report could not become a snapshot.
#[derive(Clone, Copy, Debug, PartialEq, Eq, Structural)]
pub enum SnapshotError {
    /// The item names no primary artist.
    MissingArtist,
}

impl PlayingItem {
    /// Whether the item names a primary artist: it lists an artist, and the
    /// first one's name is not empty.
    pub open spec fn has_primary_artist(self) -> bool {
        self.artists@.len() > 0 && self.artists@[0]@.len() > 0
    }
}

/// The snapshot for the report of one poll: nothing playing when the report
/// is empty, else the track with its primary artist and without features,
/// provided that it names one.
pub open spec fn snapshot_of(report: Option<PlayingItem>) -> Result<TrackSnapshot, SnapshotError> {
    match report {
        None => Ok(TrackSnapshot::NothingPlaying),
        Some(item) => if item.has_primary_artist() {
            Ok(
                TrackSnapshot::Playing(
                    Track {
                        name: item.name,
                        artist: item.artists@[0],
                        popularity: item.popularity,
                        id: item.id,
                        features: None,
                    },
                ),
            )
        } else {
            Err(SnapshotError::MissingArtist)
        },
    }
}

/// The track in an answer of the service, if it holds one: an empty answer,
/// a playback without an item and an item that is no track all mean that
/// nothing is playing.
pub open spec fn track_in(report: Reported) -> Option<PlayingItem> {
    match report {
        Reported::Track(item) => Some(item),
        _ => None,
    }
}

/// The decimal digit `d` as text.
pub open spec fn digit_text(d: nat) -> Seq<char> {
    if d == 0 {
        "0"@
    } else if d == 1 {
        "1"@
    } else if d == 2 {
        "2"@
    } else if d == 3 {
        "3"@
    } else if d == 4 {
        "4"@
    } else if d == 5 {
        "5"@
    } else if d == 6 {
        "6"@
    } else if d == 7 {
        "7"@
    } else if d == 8 {
        "8"@
    } else {
        "9"@
    }
}

/// A number in decimal notation, without leading zeros.
pub open spec fn decimal_text(n: nat) -> Seq<char>
    decreases n,
{
    if n < 10 {
        digit_text(n)
    } else {
        decimal_text(n / 10) + digit_text(n % 10)
    }
}

/// The line that the display shows for a snapshot.
pub open spec fn headline_of(snapshot: TrackSnapshot) -> Seq<char> {
    match snapshot {
        TrackSnapshot::NothingPlaying => "Nothing playing"@,
        TrackSnapshot::Unknown => "Could not retrieve status"@,
        TrackSnapshot::Playing(track) => track.artist@ + " - "@ + track.name@ + " ("@
            + decimal_text(track.popularity as nat) + ")"@,
    }
}

fn digit_str(d: u32) -> (text: &'static str)
    requires
        d < 10,
    ensures
        text@ == digit_text(d as nat),
{
    if d == 0 {
        "0"
    } else if d == 1 {
        "1"
    } else if d == 2 {
        "2"
    } else if d == 3 {
        "3"
    } else if d == 4 {
        "4"
    } else if d == 5 {
        "5"
    } else if d == 6 {
        "6"
    } else if d == 7 {
        "7"
    } else if d == 8 {
        "8"
    } else {
        "9"
    }
}

/// Writes a number in decimal notation.
pub fn decimal(n: u32) -> (text: String)
    ensures
        text@ == decimal_text(n as nat),
    decreases n,
{
    if n < 10 {
        String::from_str(digit_str(n))
    } else {
        let mut text = decimal(n / 10);
        text.append(digit_str(n % 10));
        text
    }
}

impl TrackSnapshot {
    /// The snapshot's invariant: a playing track names its primary artist,
    /// and has features only if it has an identifier.
    pub open spec fn wf(self) -> bool {
        match self {
            TrackSnapshot::Playing(track) => track.artist@.len() > 0 && (track.features is Some
                ==> track.id is Some),
            _ => true,
        }
    }

    /// The track's name, if one is playing.
    pub open spec fn name_of(self) -> Option<String> {
        match self {
            TrackSnapshot::Playing(track) => Some(track.name),
            _ => None,
        }
    }

    /// The primary artist's name, if a track is playing.
    pub open spec fn artist_of(self) -> Option<String> {
        match self {
            TrackSnapshot::Playing(track) => Some(track.artist),
            _ => None,
        }
    }

    /// The track's popularity, if one is playing.
    pub open spec fn popularity_of(self) -> Option<u32> {
        match self {
            TrackSnapshot::Playing(track) => Some(track.popularity),
            _ => None,
        }
    }

    /// The track's identifier, if one is playing and has one.
    pub open spec fn id_of(self) -> Option<String> {
        match self {
            TrackSnapshot::Playing(track) => track.id,
            _ => None,
        }
    }

    /// The track's features, if one is playing and they are known.
    pub open spec fn features_of(self) -> Option<TrackFeatures> {
        match self {
            TrackSnapshot::Playing(track) => track.features,
            _ => None,
        }
    }

    /// Whether features should be asked for: a track is playing, it has an
    /// identifier, and its features are not known yet.
    pub open spec fn lacks_features(self) -> bool {
        self.id_of() is Some && self.features_of() is None
    }

    /// The snapshot with `features` attached, where it asks for them and
    /// they were found; else the snapshot as it is.
    pub open spec fn attach(self, features: Option<TrackFeatures>) -> TrackSnapshot {
        match self {
            TrackSnapshot::Playing(track) => if track.id is Some && track.features is None
                && features is Some {
                TrackSnapshot::Playing(Track { features: features, ..track })
            } else {
                self
            },
            _ => self,
        }
    }

    /// Builds the snapshot for the report of one poll. A report of a track
    /// without a primary artist is refused.
    pub fn from_poll(report: Option<PlayingItem>) -> (result: Result<TrackSnapshot, SnapshotError>)
        ensures
            result == snapshot_of(report),
            result is Ok ==> result.unwrap().wf(),
    {
        match report {
            None => Ok(TrackSnapshot::NothingPlaying),
            Some(item) => {
                if item.artists.len() == 0 || item.artists[0].as_str().is_empty() {
                    return Err(SnapshotError::MissingArtist);
                }
                let artist = item.artists[0].clone();
                Ok(
                    TrackSnapshot::Playing(
                        Track {
                            name: item.name,
                            artist,
                            popularity: item.popularity,
                            id: item.id,
                            features: None,
                        },
                    ),
                )
            },
        }
    }

    /// Builds the snapshot for an answer of the service. Only a track counts
    /// as playing; every other answer gives a snapshot of nothing playing. A
    /// track without a primary artist is refused.
    pub fn from_report(report: Reported) -> (result: Result<TrackSnapshot, SnapshotError>)
        ensures
            result == snapshot_of(track_in(report)),
            result is Ok ==> result.unwrap().wf(),
            result is Err <==> report is Track && !report->Track_0.has_primary_artist(),
    {
        match report {
            Reported::Track(item) => TrackSnapshot::from_poll(Some(item)),
            _ => TrackSnapshot::from_poll(None),
        }
    }

    /// The snapshot of a poll that failed.
    pub fn unknown() -> (snapshot: TrackSnapshot)
        ensures
            snapshot == TrackSnapshot::Unknown,
            snapshot.wf(),
    {
        TrackSnapshot::Unknown
    }

    /// Whether a track is playing.
    pub fn is_playing(&self) -> (yes: bool)
        ensures
            yes == (self is Playing),
    {
        match self {
            TrackSnapshot::Playing(_) => true,
            _ => false,
        }
    }

    /// The identifier to ask features for, if features should be asked for.
    pub fn wants_features(&self) -> (id: Option<&String>)
        ensures
            self.lacks_features() ==> id is Some && Some(*id.unwrap()) == self.id_of(),
            !self.lacks_features() ==> id is None,
    {
        match self {
            TrackSnapshot::Playing(track) => {
                if track.features.is_none() {
                    track.id.as_ref()
                } else {
                    None
                }
            },
            _ => None,
        }
    }

    /// Attaches the features that were found to the track they were asked
    /// for. Features that nobody asked for are dropped.
    pub fn with_features(self, features: Option<TrackFeatures>) -> (snapshot: TrackSnapshot)
        ensures
            snapshot == self.attach(features),
            self.wf() ==> snapshot.wf(),
    {
        match self {
            TrackSnapshot::Playing(track) => {
                if track.id.is_some() && track.features.is_none() && features.is_some() {
                    TrackSnapshot::Playing(
                        Track {
                            name: track.name,
                            artist: track.artist,
                            popularity: track.popularity,
                            id: track.id,
                            features,
                        },
                    )
                } else {
                    TrackSnapshot::Playing(track)
                }
            },
            other => other,
        }
    }

    /// The line that the display shows: artist, name and popularity of the
    /// track, or that nothing is playing, or that the status is not known.
    pub fn headline(&self) -> (line: String)
        ensures
            line@ == headline_of(*self),
    {
        match self {
            TrackSnapshot::NothingPlaying => String::from_str("Nothing playing"),
            TrackSnapshot::Unknown => String::from_str("Could not retrieve status"),
            TrackSnapshot::Playing(track) => {
                let mut line = track.artist.clone();
                line.append(" - ");
                line.append(track.name.as_str());
                line.append(" (");
                line.append(decimal(track.popularity).as_str());
                line.append(")");
                line
            },
        }
    }
}

/// A snapshot of nothing playing holds no field of a track, and a snapshot
/// of a playing track, however it was built from a report and whatever
/// features were attached, names a primary artist that is not empty.
pub proof fn lemma_snapshot_fields(report: Option<PlayingItem>, features: Option<TrackFeatures>)
    ensures
        report is None ==> snapshot_of(report) == Ok::<TrackSnapshot, SnapshotError>(
            TrackSnapshot::NothingPlaying,
        ),
        snapshot_of(report) is Ok ==> ({
            let snapshot = snapshot_of(report).unwrap().attach(features);
            &&& snapshot.wf()
            &&& snapshot is Playing <==> report is Some
            &&& snapshot is NothingPlaying ==> snapshot.name_of() is None && snapshot.artist_of()
                is None && snapshot.popularity_of() is None && snapshot.id_of() is None
                && snapshot.features_of() is None
            &&& snapshot is Playing ==> snapshot.artist_of() is Some
                && snapshot.artist_of().unwrap()@.len() > 0
        }),
{
}

} // verus!
