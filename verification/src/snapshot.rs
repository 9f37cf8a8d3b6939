//! The decoded state of the companion service, as one poll returns it.

use vstd::prelude::*;
use crate::single::Real32;

verus! {

/// Settings of one mod entry.
#[derive(Clone, Debug)]
pub struct ModSettings {
    pub speed_change: Option<Real32>,
}

/// One entry of the array of mods.
#[derive(Clone, Debug)]
pub struct ModEntry {
    pub settings: ModSettings,
    pub rate: Option<Real32>,
}

/// The mods of a play, in every shape that the service has given them.
#[derive(Clone, Debug)]
pub struct ModsV2 {
    pub name: Option<String>,
    pub array: Option<Vec<ModEntry>>,
    pub rate: Option<Real32>,
}

/// The play in progress.
#[derive(Clone, Debug)]
pub struct PlayV2 {
    pub mods: ModsV2,
}

/// What the service says of the chart that is loaded.
#[derive(Clone, Debug)]
pub struct BeatmapV2 {
    pub artist: Option<String>,
    pub title: Option<String>,
    pub version: Option<String>,
}

/// One snapshot of the live state. The mods under `play` are the primary
/// location, those at the root the secondary one.
#[derive(Clone, Debug)]
pub struct JsonV2 {
    pub beatmap: BeatmapV2,
    pub play: PlayV2,
    pub mods: Option<ModsV2>,
}

/// The characters of an optional string, none for an absent one.
pub open spec fn text_or_empty(s: Option<String>) -> Seq<char> {
    match s {
        Some(t) => t@,
        None => Seq::<char>::empty(),
    }
}

/// The label of a song: artist and title around a dash, or a fixed label
/// where both are empty.
pub open spec fn song_text(artist: Seq<char>, title: Seq<char>) -> Seq<char> {
    if artist.len() > 0 || title.len() > 0 {
        artist + seq![' ', '-', ' '] + title
    } else {
        seq!['U', 'n', 'k', 'n', 'o', 'w', 'n', ' ', 'S', 'o', 'n', 'g']
    }
}

/// An optional string as a slice, empty for an absent one.
pub fn text_of<'a>(s: &'a Option<String>) -> (t: &'a str)
    ensures
        t@ == text_or_empty(*s),
{
    match s {
        Some(x) => x.as_str(),
        None => {
            proof {
                reveal_strlit("");
                assert(""@ =~= Seq::<char>::empty());
            }
            ""
        },
    }
}

impl BeatmapV2 {
    /// The label of the song.
    pub fn song_label(&self) -> (label: String)
        ensures
            label@ == song_text(text_or_empty(self.artist), text_or_empty(self.title)),
    {
        let artist = text_of(&self.artist);
        let title = text_of(&self.title);
        if !artist.is_empty() || !title.is_empty() {
            proof {
                reveal_strlit(" - ");
                assert(" - "@ =~= seq![' ', '-', ' ']);
            }
            let mut label = String::from_str(artist);
            label.append(" - ");
            label.append(title);
            label
        } else {
            proof {
                reveal_strlit("Unknown Song");
                assert("Unknown Song"@ =~= seq![
                    'U',
                    'n',
                    'k',
                    'n',
                    'o',
                    'w',
                    'n',
                    ' ',
                    'S',
                    'o',
                    'n',
                    'g',
                ]);
            }
            String::from_str("Unknown Song")
        }
    }

    /// The label of the difficulty: the name of the version, empty where
    /// there is none.
    pub fn diff_label(&self) -> (label: String)
        ensures
            label@ == text_or_empty(self.version),
    {
        String::from_str(text_of(&self.version))
    }
}

} // verus!
