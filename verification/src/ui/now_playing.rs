//! What the Now Playing view shows, and where.

use crate::app::{
    loop_icon_of, playback_icon_of, radio_icon_of, shuffle_icon_of, volume_text, App, AppModel,
    Ratio,
};
use crate::ui::{Constraint, Part, Rect};
use vstd::prelude::*;
use vstd::string::*;
use vstd::view::View as _;

verus! {

/// The width of the block that the view is laid out in.
pub const CONTENT_WIDTH: u16 = 50;

/// The height of the block that the view is laid out in: the sum of the
/// heights of its rows.
pub const CONTENT_HEIGHT: u16 = 29;

/// The text that stands in the place of the album art where there is none.
pub open spec fn placeholder_text() -> Seq<char> {
    "♪ ♫ ♪"@
}

/// The height of the album art.
pub const ART_HEIGHT: u16 = 20;

/// The parts of the Now Playing view.
#[derive(Debug, Clone, Copy, PartialEq, Eq, Structural)]
pub enum NowPlayingPart {
    AlbumArt,
    Gap,
    Title,
    Artist,
    Album,
    Time,
    Progress,
    Status,
    Volume,
    /// What is left of the block under the last line.
    Rest,
}

/// One line of the block that shows the given part.
pub open spec fn line(kind: NowPlayingPart) -> Part<NowPlayingPart> {
    Part { kind, size: Constraint::Length(1) }
}

/// The rows of the block, from the top: the album art, a gap, title,
/// artist and album, a gap, the time, the progress bar, the status icons
/// and the volume, each of these on one line; what is left stays empty.
pub open spec fn rows_of() -> Seq<Part<NowPlayingPart>> {
    seq![
        Part { kind: NowPlayingPart::AlbumArt, size: Constraint::Length(ART_HEIGHT) },
        line(NowPlayingPart::Gap),
        line(NowPlayingPart::Title),
        line(NowPlayingPart::Artist),
        line(NowPlayingPart::Album),
        line(NowPlayingPart::Gap),
        line(NowPlayingPart::Time),
        line(NowPlayingPart::Progress),
        line(NowPlayingPart::Status),
        line(NowPlayingPart::Volume),
        Part { kind: NowPlayingPart::Rest, size: Constraint::Min(0) },
    ]
}

/// The height that a row asks for.
pub open spec fn asked(row: Part<NowPlayingPart>) -> int {
    match row.size {
        Constraint::Length(n) => n as int,
        Constraint::Min(n) => n as int,
        Constraint::Percentage(_) => 0,
    }
}

/// The sum of the heights that the rows ask for.
pub open spec fn total(rows: Seq<Part<NowPlayingPart>>) -> int
    decreases rows.len(),
{
    if rows.len() == 0 {
        0
    } else {
        total(rows.drop_last()) + asked(rows.last())
    }
}

/// The smaller of two lengths.
pub open spec fn smaller(a: int, b: int) -> int {
    if a <= b {
        a
    } else {
        b
    }
}

/// The block of the given size, centred in the area; where the area is
/// smaller than the block, the block is cut to the area.
pub open spec fn centered(area: Rect, width: u16, height: u16) -> (int, int, int, int) {
    (
        area.x + (area.width - smaller(width as int, area.width as int)) / 2,
        area.y + (area.height - smaller(height as int, area.height as int)) / 2,
        smaller(width as int, area.width as int),
        smaller(height as int, area.height as int),
    )
}

/// The status line: the icons of playback, shuffle, loop and radio, with a
/// space between each two.
pub open spec fn status_line_of(app: AppModel) -> Seq<char> {
    playback_icon_of(app.playback_state()) + " "@ + shuffle_icon_of(app.shuffle()) + " "@
        + loop_icon_of(app.loop_mode()) + " "@ + radio_icon_of(app.auto_radio())
}

/// What the Now Playing view shows.
#[derive(Debug, Clone, PartialEq, Eq)]
pub struct NowPlayingScreen {
    /// Whether album art can be shown: there is an image, and the terminal
    /// has a protocol for images. The placeholder is shown otherwise.
    pub show_art: bool,
    pub title: String,
    pub artist: String,
    pub album: String,
    /// Position and length, `mm:ss / mm:ss`.
    pub time: String,
    /// How much of the progress bar is filled.
    pub progress: Ratio,
    /// The icons of playback, shuffle, loop and radio.
    pub status: String,
    pub volume: String,
}

/// A [`NowPlayingScreen`] as mathematical values.
#[verifier::ext_equal]
pub struct NowPlayingModel {
    pub show_art: bool,
    pub title: Seq<char>,
    pub artist: Seq<char>,
    pub album: Seq<char>,
    pub time: Seq<char>,
    pub progress: (nat, nat),
    pub status: Seq<char>,
    pub volume: Seq<char>,
}

impl vstd::view::View for NowPlayingScreen {
    type V = NowPlayingModel;

    open spec fn view(&self) -> NowPlayingModel {
        NowPlayingModel {
            show_art: self.show_art,
            title: self.title@,
            artist: self.artist@,
            album: self.album@,
            time: self.time@,
            progress: (self.progress.numerator as nat, self.progress.denominator as nat),
            status: self.status@,
            volume: self.volume@,
        }
    }
}

/// What the Now Playing view shows of a state at the time `now_ms`.
pub open spec fn screen_of(app: AppModel, now_ms: nat) -> NowPlayingModel {
    NowPlayingModel {
        show_art: app.album_art.is_some() && app.image_picker.is_some(),
        title: app.track_info().0,
        artist: app.track_info().1,
        album: app.track_info().2,
        time: app.progress_display(now_ms),
        progress: app.progress_ratio(now_ms),
        status: status_line_of(app),
        volume: volume_text(app.first_volume()),
    }
}

/// The text that stands in the place of the album art where there is none.
pub fn placeholder() -> (t: &'static str)
    ensures
        t@ == placeholder_text(),
{
    "♪ ♫ ♪"
}

fn one_line(kind: NowPlayingPart) -> (row: Part<NowPlayingPart>)
    ensures
        row == line(kind),
{
    Part { kind, size: Constraint::Length(1) }
}

/// The rows of the block, from the top.
pub fn layout() -> (rows: Vec<Part<NowPlayingPart>>)
    ensures
        rows@ == rows_of(),
{
    vec![
        Part { kind: NowPlayingPart::AlbumArt, size: Constraint::Length(ART_HEIGHT) },
        one_line(NowPlayingPart::Gap),
        one_line(NowPlayingPart::Title),
        one_line(NowPlayingPart::Artist),
        one_line(NowPlayingPart::Album),
        one_line(NowPlayingPart::Gap),
        one_line(NowPlayingPart::Time),
        one_line(NowPlayingPart::Progress),
        one_line(NowPlayingPart::Status),
        one_line(NowPlayingPart::Volume),
        Part { kind: NowPlayingPart::Rest, size: Constraint::Min(0) },
    ]
}

/// The rows of the block ask for exactly its height.
pub proof fn lemma_rows_fill_content()
    ensures
        total(rows_of()) == CONTENT_HEIGHT,
{
    let rows = rows_of();
    assert(total(rows.take(0)) == 0);
    assert(rows.take(1).drop_last() =~= rows.take(0));
    assert(total(rows.take(1)) == 20);
    assert(rows.take(2).drop_last() =~= rows.take(1));
    assert(total(rows.take(2)) == 21);
    assert(rows.take(3).drop_last() =~= rows.take(2));
    assert(total(rows.take(3)) == 22);
    assert(rows.take(4).drop_last() =~= rows.take(3));
    assert(total(rows.take(4)) == 23);
    assert(rows.take(5).drop_last() =~= rows.take(4));
    assert(total(rows.take(5)) == 24);
    assert(rows.take(6).drop_last() =~= rows.take(5));
    assert(total(rows.take(6)) == 25);
    assert(rows.take(7).drop_last() =~= rows.take(6));
    assert(total(rows.take(7)) == 26);
    assert(rows.take(8).drop_last() =~= rows.take(7));
    assert(total(rows.take(8)) == 27);
    assert(rows.take(9).drop_last() =~= rows.take(8));
    assert(total(rows.take(9)) == 28);
    assert(rows.take(10).drop_last() =~= rows.take(9));
    assert(total(rows.take(10)) == 29);
    assert(rows.drop_last() =~= rows.take(10));
}

/// The block that the view is laid out in: 50 by 29 cells, centred in the
/// area and cut to it.
pub fn content_area(area: Rect) -> (r: Rect)
    requires
        area.x + area.width <= u16::MAX,
        area.y + area.height <= u16::MAX,
    ensures
        (r.x as int, r.y as int, r.width as int, r.height as int) == centered(
            area,
            CONTENT_WIDTH,
            CONTENT_HEIGHT,
        ),
        area.x <= r.x,
        r.x + r.width <= area.x + area.width,
        area.y <= r.y,
        r.y + r.height <= area.y + area.height,
        0 <= (area.x + area.width - (r.x + r.width)) - (r.x - area.x) <= 1,
        0 <= (area.y + area.height - (r.y + r.height)) - (r.y - area.y) <= 1,
{
    let vertical_padding: u16 = area.height.saturating_sub(CONTENT_HEIGHT) / 2;
    let horizontal_padding: u16 = area.width.saturating_sub(CONTENT_WIDTH) / 2;
    Rect {
        x: area.x + horizontal_padding,
        y: area.y + vertical_padding,
        width: if CONTENT_WIDTH <= area.width {
            CONTENT_WIDTH
        } else {
            area.width
        },
        height: if CONTENT_HEIGHT <= area.height {
            CONTENT_HEIGHT
        } else {
            area.height
        },
    }
}

/// Where the album art stands in its row: in a block as wide as the row is
/// high, or as wide as the row where that is less, centred in the row.
pub fn album_art_area(area: Rect) -> (r: Rect)
    requires
        area.x + area.width <= u16::MAX,
    ensures
        r.width == smaller(area.height as int, area.width as int),
        r.x == area.x + (area.width - r.width) / 2,
        r.y == area.y,
        r.height == area.height,
        area.x <= r.x,
        r.x + r.width <= area.x + area.width,
        0 <= (area.x + area.width - (r.x + r.width)) - (r.x - area.x) <= 1,
{
    let art_size: u16 = if area.height <= area.width {
        area.height
    } else {
        area.width
    };
    let art_x: u16 = area.x + (area.width - art_size) / 2;
    Rect { x: art_x, y: area.y, width: art_size, height: area.height }
}

/// The status line: the icons of playback, shuffle, loop and radio.
pub fn status_line(app: &App) -> (line: String)
    ensures
        line@ == status_line_of(app@),
{
    let mut line = app.playback_icon().to_string();
    line.append(" ");
    line.append(app.shuffle_icon());
    line.append(" ");
    line.append(app.loop_icon());
    line.append(" ");
    line.append(app.radio_icon());
    line
}

/// What the Now Playing view shows at the time `now_ms`.
pub fn draw(app: &App, now_ms: u64) -> (screen: NowPlayingScreen)
    ensures
        screen@ == screen_of(app@, now_ms as nat),
{
    let (title, artist, album) = app.track_info();
    let screen = NowPlayingScreen {
        show_art: app.album_art.is_some() && app.image_picker.is_some(),
        title: title.to_string(),
        artist: artist.to_string(),
        album: album.to_string(),
        time: app.progress_display(now_ms),
        progress: app.progress_ratio(now_ms),
        status: status_line(app),
        volume: app.volume_display(),
    };
    screen
}

} // verus!
