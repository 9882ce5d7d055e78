//! Fixed settings of the service.
use vstd::prelude::*;

verus! {

/// Address the web front end listens on.
pub const SERVER_ADDR: &'static str = "0.0.0.0:3000";

/// Address of the music server.
pub const MPD_SERVER_ADDR: &'static str = "localhost:6600";

/// Root of the music server's library on disk.
pub const MUSIC_DIRECTORY: &'static str = "C:/Users/kylea/Music/Listening";

/// Name shown by the web front end.
pub const NAME: &'static str = "mpd-webext";

/// Name of the playlist that records every downloaded track.
pub const DOWNLOADS_PLAYLIST_NAME: &'static str = "mpd-webext Downloads";

/// Seconds to wait after a rescan before the new files are looked up.
pub const RESCAN_TIME: u64 = 5;

/// The name of the downloads subdirectory of the library, which is the name of
/// the downloads playlist.
pub open spec fn downloads_dir_spec() -> Seq<char> {
    DOWNLOADS_PLAYLIST_NAME@
}

/// Name of the library subdirectory that downloads are written to.
pub fn download_dir_name() -> (r: String)
    ensures
        r@ == downloads_dir_spec(),
{
    DOWNLOADS_PLAYLIST_NAME.to_owned()
}

} // verus!
