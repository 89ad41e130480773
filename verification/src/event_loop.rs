//! The decisions of the event loop.
//!
//! The loop itself waits for keys, album art and the timer, and talks to the
//! controller and the network. What it decides in between is decided here:
//! which key events count, when the zones are due for a refresh, when album
//! art has to be fetched, and what becomes of the bytes that were fetched.

use crate::actions::{handle_action, Effect, EffectModel};
use crate::app::{elapsed_since, App, AppModel};
use crate::input::{action_for, handle_key, KeyEvent, KeyEventKind};
use image::{DynamicImage, ImageError};
use vstd::prelude::*;
use vstd::view::View as _;

verus! {

/// The error of the `image` crate. The library only tells it from success.
#[verifier::external_type_specification]
#[verifier::external_body]
pub struct ExImageError(image::ImageError);

/// Trusted: `image::load_from_memory` may be called on any byte slice.
/// Nothing is claimed of what it returns. Whether the bytes decode, and to
/// what, is not a matter of the bytes alone: the `image` crate first asks
/// the format and decoding hooks that are registered in the process.
pub assume_specification[ image::load_from_memory ](buffer: &[u8]) -> image::ImageResult<
    DynamicImage,
>;

/// How long the zones may go without a refresh, in milliseconds.
pub const POLL_INTERVAL_MS: u64 = 1000;

/// How long the loop waits for a key at most, in milliseconds.
pub const KEY_POLL_MS: u64 = 100;

/// After how many milliseconds the screen is drawn again at the latest, so
/// that the progress bar moves smoothly.
pub const TICK_MS: u64 = 50;

/// What a fetch of album art hands to the event loop.
#[derive(Debug)]
pub enum AlbumArtMsg {
    /// The decoded image and the address it was fetched from.
    Loaded(DynamicImage, String),
}

impl AppModel {
    /// The state once the fetch of new album art has begun: the address is
    /// noted at once, so that it is fetched only once.
    pub open spec fn art_fetch_begun(self) -> AppModel {
        match self.album_art_url_if_changed() {
            Some(url) => AppModel { album_art_url: Some(url), ..self },
            None => self,
        }
    }
}

/// Whether the zones are due for a refresh at the time `now_ms`, the last
/// periodic refresh having been at `last_poll_ms`.
pub fn poll_due(last_poll_ms: u64, now_ms: u64) -> (due: bool)
    ensures
        due == (elapsed_since(last_poll_ms as nat, now_ms as nat) >= POLL_INTERVAL_MS),
{
    now_ms.saturating_sub(last_poll_ms) >= POLL_INTERVAL_MS
}

/// Takes a keyboard event. Only a key that goes down counts: it is turned
/// into its action and the action is applied. A key that is held or comes
/// up changes nothing.
pub fn key_event(key: KeyEvent, app: &mut App) -> (effect: Effect)
    ensures
        key.kind == KeyEventKind::Press ==> final(app)@ == old(app)@.after_action(
            action_for(key, old(app)@),
        ) && effect@ == old(app)@.effect_of(action_for(key, old(app)@)),
        key.kind != KeyEventKind::Press ==> final(app)@ == old(app)@ && effect@
            == EffectModel::Done,
        old(app)@.wf() ==> final(app)@.wf(),
{
    match key.kind {
        KeyEventKind::Press => {
            let action = handle_key(key, app);
            handle_action(action, app)
        },
        _ => Effect::Done,
    }
}

/// Decides whether album art has to be fetched: it has where the playing
/// track has an address for it that differs from the one fetched last. The
/// address is then noted in the state and returned.
pub fn begin_art_fetch(app: &mut App) -> (url: Option<String>)
    ensures
        url.deep_view() == old(app)@.album_art_url_if_changed(),
        final(app)@ == old(app)@.art_fetch_begun(),
        old(app)@.wf() ==> final(app)@.wf(),
{
    let url = match app.album_art_url_if_changed() {
        Some(u) => Some(u.to_string()),
        None => None,
    };
    match &url {
        Some(u) => {
            app.album_art_url = Some(u.clone());
        },
        None => {},
    }
    url
}

/// What is handed to the event loop for the outcome of decoding the bytes
/// fetched from the address: the image with its address, or nothing where
/// the bytes were no image.
pub fn album_art_message(decoded: Result<DynamicImage, ImageError>, url: String) -> (msg: Option<
    AlbumArtMsg,
>)
    ensures
        msg == match decoded {
            Ok(image) => Some(AlbumArtMsg::Loaded(image, url)),
            Err(_) => None,
        },
{
    match decoded {
        Ok(image) => Some(AlbumArtMsg::Loaded(image, url)),
        Err(_) => None,
    }
}

/// Decodes the bytes that were fetched from the address. Whether they decode
/// is up to the `image` crate and the hooks registered with it, so nothing
/// is promised of that; where they do, the message carries the address
/// unchanged. What becomes of each outcome is said by [`album_art_message`].
pub fn decode_album_art(bytes: &[u8], url: String) -> (msg: Option<AlbumArtMsg>)
    ensures
        msg matches Some(AlbumArtMsg::Loaded(_, u)) ==> u == url,
{
    album_art_message(image::load_from_memory(bytes), url)
}

/// Takes album art that has arrived.
pub fn album_art_loaded(app: &mut App, msg: AlbumArtMsg)
    ensures
        msg matches AlbumArtMsg::Loaded(image, url) && final(app)@ == old(app)@.set_album_art(
            image,
            url@,
        ),
        old(app)@.wf() ==> final(app)@.wf(),
{
    match msg {
        AlbumArtMsg::Loaded(image, url) => app.set_album_art(image, url),
    }
}

} // verus!
