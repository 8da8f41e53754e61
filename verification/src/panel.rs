//! The panel's `index.html`, rewritten so that the panel finds the bot behind
//! whatever address and path the bot is served at.
use crate::text::{
    chars_of, concat, extend, replace_all, replace_all_exec, string_of, strip_suffix_or_keep,
    strip_suffix_or_keep_exec,
};
use vstd::prelude::*;

verus! {

/// The path under which the bot serves the panel.
pub const SERVER_PANEL_PATH: &'static str = "/panel";

/// The attributes added to the `<head` tag: where the panel and the bot's
/// interface are, and the panel's Twitch client id.
pub open spec fn head_attributes(bot_addr: Seq<char>, client_id: Seq<char>) -> Seq<char> {
    "<head panel_base_addr=\""@ + bot_addr + "/panel"@ + "\" backend_base_addr=\""@ + bot_addr
        + "/bot\" twitch_client_id=\""@ + client_id + "\" "@
}

/// The rewritten `index.html`: links and sources that start at the root are
/// moved under the bot's base path (without its trailing `/`), and the `<head`
/// tag gets the panel's settings. `server_base_url` is the bot's full base
/// address and `server_base_path` its path.
pub open spec fn rewritten_index(
    index: Seq<char>,
    server_base_url: Seq<char>,
    server_base_path: Seq<char>,
    client_id: Seq<char>,
) -> Seq<char> {
    let path_prefix = strip_suffix_or_keep(server_base_path, "/"@);
    let bot_addr = strip_suffix_or_keep(server_base_url, "/"@);
    replace_all(
        replace_all(
            replace_all(index, "href=\"/"@, "href=\""@ + path_prefix + "/"@),
            "src=\"/"@,
            "src=\""@ + path_prefix + "/"@,
        ),
        "<head"@,
        head_attributes(bot_addr, client_id),
    )
}

/// Rewrites the panel's `index.html` for the bot at `server_base_url` (whose
/// path is `server_base_path`) and the panel's Twitch client id.
pub fn render_index_html(
    index: &str,
    server_base_url: &str,
    server_base_path: &str,
    panel_auth_twitch_client_id: &str,
) -> (r: String)
    ensures
        r@ == rewritten_index(
            index@,
            server_base_url@,
            server_base_path@,
            panel_auth_twitch_client_id@,
        ),
{
    let slash = chars_of("/");
    let path_prefix = strip_suffix_or_keep_exec(chars_of(server_base_path).as_slice(), slash.as_slice());
    let bot_addr = strip_suffix_or_keep_exec(chars_of(server_base_url).as_slice(), slash.as_slice());

    let mut attributes = chars_of("<head panel_base_addr=\"");
    extend(&mut attributes, bot_addr.as_slice());
    extend(&mut attributes, chars_of("/panel").as_slice());
    extend(&mut attributes, chars_of("\" backend_base_addr=\"").as_slice());
    extend(&mut attributes, bot_addr.as_slice());
    extend(&mut attributes, chars_of("/bot\" twitch_client_id=\"").as_slice());
    extend(&mut attributes, chars_of(panel_auth_twitch_client_id).as_slice());
    extend(&mut attributes, chars_of("\" ").as_slice());

    let mut href_to = chars_of("href=\"");
    extend(&mut href_to, path_prefix.as_slice());
    extend(&mut href_to, slash.as_slice());
    let mut src_to = chars_of("src=\"");
    extend(&mut src_to, path_prefix.as_slice());
    extend(&mut src_to, slash.as_slice());

    let href_from = chars_of("href=\"/");
    let src_from = chars_of("src=\"/");
    let head_from = chars_of("<head");
    proof {
        reveal_strlit("href=\"/");
        reveal_strlit("src=\"/");
        reveal_strlit("<head");
    }
    let step1 = replace_all_exec(chars_of(index).as_slice(), href_from.as_slice(), href_to.as_slice());
    let step2 = replace_all_exec(step1.as_slice(), src_from.as_slice(), src_to.as_slice());
    let step3 = replace_all_exec(step2.as_slice(), head_from.as_slice(), attributes.as_slice());
    string_of(step3.as_slice())
}

/// What was found of the built panel on disk.
#[derive(Clone, Copy, Debug, PartialEq, Eq, Structural)]
pub enum PanelDistStatus {
    /// Whether the directory exists could not be checked.
    DirUncheckable,
    /// Whether `index.html` exists could not be checked.
    IndexUncheckable,
    /// The directory is missing.
    MissingDir,
    /// The directory holds no `index.html`.
    MissingIndex,
    /// The panel can be served.
    Ready,
}

/// Judges the checks for the panel's directory and its `index.html`, in this
/// order: a failed check of the directory, a failed check of the file, a
/// missing directory, a missing file.
pub fn panel_dist_status(dir_exists: Result<bool, ()>, index_exists: Result<bool, ()>) -> (s:
    PanelDistStatus)
    ensures
        s == (match (dir_exists, index_exists) {
            (Err(()), _) => PanelDistStatus::DirUncheckable,
            (Ok(_), Err(())) => PanelDistStatus::IndexUncheckable,
            (Ok(false), Ok(_)) => PanelDistStatus::MissingDir,
            (Ok(true), Ok(false)) => PanelDistStatus::MissingIndex,
            (Ok(true), Ok(true)) => PanelDistStatus::Ready,
        }),
{
    match (dir_exists, index_exists) {
        (Err(()), _) => PanelDistStatus::DirUncheckable,
        (Ok(_), Err(())) => PanelDistStatus::IndexUncheckable,
        (Ok(false), Ok(_)) => PanelDistStatus::MissingDir,
        (Ok(true), Ok(false)) => PanelDistStatus::MissingIndex,
        (Ok(true), Ok(true)) => PanelDistStatus::Ready,
    }
}

} // verus!
