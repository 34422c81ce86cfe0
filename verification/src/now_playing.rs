//! What is on air, as the station's API reports it, and what is shown of it.

use vstd::prelude::*;
use vstd::string::StringExecFns;

verus! {

/// Address of the audio stream.
pub const STREAM_URL: &'static str = "https://stream.gensokyoradio.net/3";

/// Address of the API that reports the track on air.
pub const NOW_PLAYING_URL: &'static str = "https://gensokyoradio.net/api/station/playing/";

/// Address under which the album covers are found, by file name.
pub const ALBUM_ART_BASE: &'static str = "https://gensokyoradio.net/images/albums/500/";

/// What is written to the terminal before a report: clear the screen and put
/// the cursor in the top-left corner.
pub const CLEAR_SCREEN: &'static str = "\x1B[2J\x1B[H";

/// Names of the track on air.
#[derive(Debug, PartialEq, Eq)]
pub struct SongInfo {
    pub title: String,
    pub artist: String,
    pub album: String,
    pub year: String,
    pub circle: String,
}

/// Length of the track on air and how far it has played, in seconds.
#[derive(Clone, Copy, Debug, PartialEq, Eq, Structural)]
pub struct SongTimes {
    pub duration: u32,
    pub played: u32,
}

/// Listeners' data on the track on air.
#[derive(Debug, PartialEq, Eq)]
pub struct SongData {
    pub rating: String,
}

/// Further data on the track on air.
#[derive(Debug, PartialEq, Eq)]
pub struct Misc {
    /// File name of the album cover, where there is one.
    pub album_art: Option<String>,
}

/// The API's report of the track on air.
#[derive(Debug, PartialEq, Eq)]
pub struct NowPlaying {
    pub song_info: SongInfo,
    pub song_times: SongTimes,
    pub song_data: SongData,
    pub misc: Misc,
}

/// The address of the album cover: none where the report names no file, or an
/// empty one.
pub open spec fn spec_album_art_url(album_art: Option<Seq<char>>) -> Option<Seq<char>> {
    match album_art {
        Some(name) => if name.len() > 0 {
            Some(ALBUM_ART_BASE@ + name)
        } else {
            None
        },
        None => None,
    }
}

/// A line of the report: the label, a colon and a space, the value.
pub open spec fn spec_labelled(label: Seq<char>, value: Seq<char>) -> Seq<char> {
    label + ": "@ + value
}

/// The lines that are shown of a report, in order.
pub open spec fn spec_info_lines(report: NowPlaying) -> Seq<Seq<char>> {
    seq![
        spec_labelled("Title"@, report.song_info.title@),
        spec_labelled("Artist"@, report.song_info.artist@),
        spec_labelled("Album"@, report.song_info.album@),
        spec_labelled("Year"@, report.song_info.year@),
        spec_labelled("Circle"@, report.song_info.circle@),
        spec_labelled("Rating"@, report.song_data.rating@),
    ]
}

/// The address from which the album cover is fetched, if the report names one.
pub fn album_art_url(album_art: &Option<String>) -> (url: Option<String>)
    ensures
        url.deep_view() == spec_album_art_url(album_art.deep_view()),
{
    match album_art {
        Some(name) => {
            if name.as_str().is_empty() {
                None
            } else {
                let mut address = String::from_str(ALBUM_ART_BASE);
                address.append(name.as_str());
                Some(address)
            }
        },
        None => None,
    }
}

/// Writes one line of the report.
pub fn labelled(label: &str, value: &str) -> (line: String)
    ensures
        line@ == spec_labelled(label@, value@),
{
    let mut line = String::from_str(label);
    line.append(": ");
    line.append(value);
    line
}

/// Writes the lines that are shown of a report.
pub fn info_lines(report: &NowPlaying) -> (lines: Vec<String>)
    ensures
        lines.deep_view() == spec_info_lines(*report),
{
    let mut lines: Vec<String> = Vec::new();
    lines.push(labelled("Title", report.song_info.title.as_str()));
    lines.push(labelled("Artist", report.song_info.artist.as_str()));
    lines.push(labelled("Album", report.song_info.album.as_str()));
    lines.push(labelled("Year", report.song_info.year.as_str()));
    lines.push(labelled("Circle", report.song_info.circle.as_str()));
    lines.push(labelled("Rating", report.song_data.rating.as_str()));
    assert(lines.deep_view() =~= spec_info_lines(*report));
    lines
}

} // verus!
