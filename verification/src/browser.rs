//! The two-pane file browser: which pane has the focus, what a key does
//! in each mode, which files are previewed as images, the status line, and
//! the local cache of remote files.
use vstd::prelude::*;
use crate::codec::{blake3_hex, blake3_hex_of};
use crate::display::{size_text, time_text};
use crate::explorer::{File, FileView, FileMetadata};
use crate::keys::{KeyCode, KeyInput, KeyKind};
use crate::paths::{extension_of, join_of, extension, join};
use crate::stdtext::{unicode_lowercase, to_lowercase};
use crate::text::{chars_of, chars_eq, concat2, concat3};

verus! {

/// The panes of the browser.
#[derive(Clone, Copy, Debug, PartialEq, Eq, Structural)]
pub enum Pane {
    Local,
    Remote,
}

/// What the browser shows over its panes.
#[derive(Clone, Copy, Debug, PartialEq, Eq, Structural)]
pub enum Preview {
    /// The panes themselves.
    Off,
    /// A text file.
    Text,
    /// An image.
    Image,
}

/// The browser's state: the pane with the focus, the preview shown, and
/// whether there is a remote pane.
#[derive(Clone, Copy, Debug, PartialEq, Eq, Structural)]
pub struct BrowserState {
    pub focus: Pane,
    pub preview: Preview,
    pub has_remote: bool,
}

/// What the browser does for a key.
#[derive(Clone, Copy, Debug, PartialEq, Eq, Structural)]
pub enum BrowserAction {
    /// Leave the browser.
    Quit,
    /// Hand this key to the explorer of the focused pane.
    Explorer(KeyInput),
    /// Load the selected file as an image, and report to `on_image_loaded`.
    LoadImage,
    /// Load the selected file into the text viewer (now shown).
    LoadText,
    /// Hand the key to the text viewer (scrolling).
    Scroll,
    /// Delete what the focused pane's explorer names as its delete target
    /// (`FileExplorer::delete_target`) from that pane's file system (a
    /// `FsDelete` request for the remote pane), then take it out of the
    /// listing (`FileExplorer::remove_listed`) and read the directory again.
    Delete,
    /// Nothing to do (the state may have changed).
    Nothing,
}

/// Whether a path names an image: its extension, lower-cased, is `png`,
/// `jpg`, `jpeg`, `webp`, `gif` or `bmp`.
pub open spec fn is_image_path(path: Seq<char>) -> bool {
    match extension_of(path) {
        Some(e) => {
            let l = unicode_lowercase(e);
            l == "png"@ || l == "jpg"@ || l == "jpeg"@ || l == "webp"@ || l == "gif"@ || l == "bmp"@
        },
        None => false,
    }
}

/// Whether `a` holds the text of the literal `b`.
fn text_is(a: &Vec<char>, b: &str) -> (r: bool)
    ensures
        r == (a@ == b@),
{
    let v = chars_of(b);
    chars_eq(a.as_slice(), v.as_slice())
}

/// Whether a path names an image, by its extension.
pub fn is_image_file(path: &str) -> (r: bool)
    ensures
        r == is_image_path(path@),
{
    match extension(path) {
        Some(e) => {
            let l = to_lowercase(e.as_str());
            let v = chars_of(l.as_str());
            text_is(&v, "png") || text_is(&v, "jpg") || text_is(&v, "jpeg") || text_is(&v, "webp")
                || text_is(&v, "gif") || text_is(&v, "bmp")
        },
        None => false,
    }
}

/// Whether the key is one of the given character keys.
pub open spec fn is_char(key: KeyInput, c: char) -> bool {
    key.code == KeyCode::Char(c)
}

/// What a key does: the browser's state after it and the action.  The
/// selected file of the focused pane is a directory or not
/// (`current_is_dir`) and is an image or not (`current_is_image`).
pub open spec fn browser_step(
    s: BrowserState,
    key: KeyInput,
    current_is_dir: bool,
    current_is_image: bool,
) -> (BrowserState, BrowserAction) {
    match s.preview {
        Preview::Off => if key.code == KeyCode::Tab {
            if s.has_remote {
                (BrowserState {
                    focus: if s.focus == Pane::Local { Pane::Remote } else { Pane::Local },
                    ..s
                }, BrowserAction::Nothing)
            } else {
                (s, BrowserAction::Nothing)
            }
        } else if is_char(key, 'q') || (is_char(key, 'c') && key.ctrl) {
            (s, BrowserAction::Quit)
        } else if is_char(key, 'd') && !key.ctrl {
            (s, BrowserAction::Delete)
        } else if key.code == KeyCode::Enter && !current_is_dir {
            if current_is_image {
                (s, BrowserAction::LoadImage)
            } else {
                (BrowserState { preview: Preview::Text, ..s }, BrowserAction::LoadText)
            }
        } else if is_char(key, ' ') {
            if current_is_dir {
                (s, BrowserAction::Explorer(KeyInput { code: KeyCode::Right, ctrl: false, alt: false, shift: false, kind: KeyKind::Press }))
            } else if current_is_image {
                (s, BrowserAction::LoadImage)
            } else {
                (BrowserState { preview: Preview::Text, ..s }, BrowserAction::LoadText)
            }
        } else if is_char(key, 'h') {
            (s, BrowserAction::Explorer(KeyInput { code: KeyCode::Char('.'), ctrl: true, alt: false, shift: false, kind: KeyKind::Press }))
        } else {
            (s, BrowserAction::Explorer(key))
        },
        Preview::Text => if key.code == KeyCode::Esc || is_char(key, 'q') {
            (BrowserState { preview: Preview::Off, ..s }, BrowserAction::Nothing)
        } else {
            (s, BrowserAction::Scroll)
        },
        Preview::Image => if key.code == KeyCode::Esc || is_char(key, 'q') || is_char(key, ' ') {
            (BrowserState { preview: Preview::Off, ..s }, BrowserAction::Nothing)
        } else {
            (s, BrowserAction::Nothing)
        },
    }
}

/// The focus is on the remote pane only when there is one.
pub open spec fn browser_wf(s: BrowserState) -> bool {
    s.focus == Pane::Remote ==> s.has_remote
}

impl BrowserState {
    /// A browser showing its panes, the local one focused.
    pub fn new(has_remote: bool) -> (s: Self)
        ensures
            s == (BrowserState { focus: Pane::Local, preview: Preview::Off, has_remote }),
    {
        BrowserState { focus: Pane::Local, preview: Preview::Off, has_remote }
    }

    /// Reacts to a key.
    pub fn on_key(&mut self, key: KeyInput, current_is_dir: bool, current_is_image: bool) -> (a: BrowserAction)
        ensures
            (*final(self), a) == browser_step(*old(self), key, current_is_dir, current_is_image),
    {
        match self.preview {
            Preview::Off => {
                if key.code == KeyCode::Tab {
                    if self.has_remote {
                        self.focus = if self.focus == Pane::Local { Pane::Remote } else { Pane::Local };
                    }
                    BrowserAction::Nothing
                } else if key.code == KeyCode::Char('q') || (key.code == KeyCode::Char('c') && key.ctrl) {
                    BrowserAction::Quit
                } else if key.code == KeyCode::Char('d') && !key.ctrl {
                    BrowserAction::Delete
                } else if key.code == KeyCode::Enter && !current_is_dir {
                    if current_is_image {
                        BrowserAction::LoadImage
                    } else {
                        self.preview = Preview::Text;
                        BrowserAction::LoadText
                    }
                } else if key.code == KeyCode::Char(' ') {
                    if current_is_dir {
                        BrowserAction::Explorer(KeyInput::plain(KeyCode::Right))
                    } else if current_is_image {
                        BrowserAction::LoadImage
                    } else {
                        self.preview = Preview::Text;
                        BrowserAction::LoadText
                    }
                } else if key.code == KeyCode::Char('h') {
                    BrowserAction::Explorer(KeyInput::with_ctrl(KeyCode::Char('.')))
                } else {
                    BrowserAction::Explorer(key)
                }
            },
            Preview::Text => {
                if key.code == KeyCode::Esc || key.code == KeyCode::Char('q') {
                    self.preview = Preview::Off;
                    BrowserAction::Nothing
                } else {
                    BrowserAction::Scroll
                }
            },
            Preview::Image => {
                if key.code == KeyCode::Esc || key.code == KeyCode::Char('q') || key.code == KeyCode::Char(' ') {
                    self.preview = Preview::Off;
                }
                BrowserAction::Nothing
            },
        }
    }

    /// The image of a `LoadImage` action was loaded (or not): only a loaded
    /// image is shown.
    pub fn on_image_loaded(&mut self, loaded: bool)
        ensures
            *final(self) == (if loaded { BrowserState { preview: Preview::Image, ..*old(self) } } else { *old(self) }),
    {
        if loaded {
            self.preview = Preview::Image;
        }
    }
}

/// Every key keeps the focus on a pane that exists.
pub proof fn law_focus_stays_on_existing_pane(s: BrowserState, key: KeyInput, is_dir: bool, is_image: bool)
    requires
        browser_wf(s),
    ensures
        browser_wf(browser_step(s, key, is_dir, is_image).0),
        browser_step(s, key, is_dir, is_image).0.has_remote == s.has_remote,
{
}

/// With the panes shown, `d` (without Ctrl) asks for the focused pane's
/// selected file or directory to be deleted, and changes nothing else.
pub proof fn law_delete_key_deletes(s: BrowserState, key: KeyInput, is_dir: bool, is_image: bool)
    requires
        s.preview == Preview::Off,
        is_char(key, 'd'),
        !key.ctrl,
    ensures
        browser_step(s, key, is_dir, is_image) == (s, BrowserAction::Delete),
{
}

/// With the panes shown: `q` and Ctrl+C leave the browser; Tab moves the
/// focus to the other pane when there is a remote one (so two Tabs bring
/// it back) and does nothing otherwise; Space or Enter on a directory
/// enters it, on an image loads the image, and on any other file opens the
/// text viewer; `h` toggles hidden files.
pub proof fn law_pane_keys(s: BrowserState, key: KeyInput, is_dir: bool, is_image: bool)
    requires
        s.preview == Preview::Off,
    ensures
        is_char(key, 'q') ==> browser_step(s, key, is_dir, is_image) == (s, BrowserAction::Quit),
        is_char(key, 'c') && key.ctrl ==> browser_step(s, key, is_dir, is_image) == (s, BrowserAction::Quit),
        key.code == KeyCode::Tab && s.has_remote ==> {
            let t = browser_step(s, key, is_dir, is_image).0;
            &&& t.focus != s.focus
            &&& t.preview == s.preview
            &&& browser_step(t, key, is_dir, is_image).0 == s
        },
        key.code == KeyCode::Tab && !s.has_remote ==> browser_step(s, key, is_dir, is_image) == (s, BrowserAction::Nothing),
        (is_char(key, ' ') || key.code == KeyCode::Enter) && !is_dir && is_image
            ==> browser_step(s, key, is_dir, is_image) == (s, BrowserAction::LoadImage),
        (is_char(key, ' ') || key.code == KeyCode::Enter) && !is_dir && !is_image
            ==> browser_step(s, key, is_dir, is_image).0.preview == Preview::Text
                && browser_step(s, key, is_dir, is_image).1 == BrowserAction::LoadText,
        is_char(key, ' ') && is_dir ==> browser_step(s, key, is_dir, is_image).1
            == BrowserAction::Explorer(KeyInput { code: KeyCode::Right, ctrl: false, alt: false, shift: false, kind: KeyKind::Press }),
        key.code == KeyCode::Enter && is_dir ==> browser_step(s, key, is_dir, is_image).1 == BrowserAction::Explorer(key),
        is_char(key, 'h') ==> browser_step(s, key, is_dir, is_image).1
            == BrowserAction::Explorer(KeyInput { code: KeyCode::Char('.'), ctrl: true, alt: false, shift: false, kind: KeyKind::Press }),
{
}

/// While a preview is shown, no key reaches the explorers or leaves the
/// browser; Esc always closes the preview.
pub proof fn law_preview_captures_keys(s: BrowserState, key: KeyInput, is_dir: bool, is_image: bool)
    requires
        s.preview != Preview::Off,
    ensures
        !(browser_step(s, key, is_dir, is_image).1 is Explorer),
        !(browser_step(s, key, is_dir, is_image).1 is Quit),
        key.code == KeyCode::Esc ==> browser_step(s, key, is_dir, is_image).0.preview == Preview::Off,
{
}

/// The message shown when an image cannot be loaded.
pub fn image_error_text(error: &str) -> (r: String)
    ensures
        r@ == "Failed to load image: "@ + error@,
{
    concat2("Failed to load image: ", error)
}

/// An error message is shown for 3 seconds.
pub fn error_expired(elapsed_secs: u64) -> (r: bool)
    ensures
        r == (elapsed_secs >= 3),
{
    elapsed_secs >= 3
}

/// The status line for the selected file: its path, then its kind, size
/// and modification time when its metadata is known.
pub open spec fn status_text(f: FileView) -> Seq<char> {
    let head = " Path: "@ + f.path + " │ "@;
    match f.metadata {
        Some(m) => head + "Type: "@ + (if m.is_dir { "Dir"@ } else { "File"@ }) + " │ "@
            + "Size: "@ + size_text(m.size, m.is_dir) + " │ "@ + "Modified: "@ + time_text(m.modified),
        None => head + "Type: "@ + (if f.is_dir { "Parent Dir"@ } else { "Unknown"@ }),
    }
}

/// The status line of the browser: the error when there is one, else the
/// selected file's status.
pub fn status_line(f: &File, error: Option<&str>) -> (r: String)
    ensures
        r@ == match error {
            Some(e) => " ERROR: "@ + e@,
            None => status_text(f@),
        },
{
    if let Some(e) = error {
        return concat2(" ERROR: ", e);
    }
    let head = concat3(" Path: ", f.path(), " │ ");
    match f.metadata() {
        Some(m) => {
            let kind = if m.is_dir { "Dir" } else { "File" };
            let a = concat3(head.as_str(), "Type: ", kind);
            let size = m.format_size();
            let b = concat3(a.as_str(), " │ Size: ", size.as_str());
            let modified = m.format_modified();
            let r = concat3(b.as_str(), " │ Modified: ", modified.as_str());
            proof {
                reveal_strlit(" │ Size: ");
                reveal_strlit(" │ Modified: ");
                reveal_strlit(" │ ");
                reveal_strlit("Size: ");
                reveal_strlit("Modified: ");
                assert(" │ Size: "@ =~= " │ "@ + "Size: "@);
                assert(" │ Modified: "@ =~= " │ "@ + "Modified: "@);
            }
            r
        },
        None => {
            let kind = if f.is_dir() { "Parent Dir" } else { "Unknown" };
            concat3(head.as_str(), "Type: ", kind)
        },
    }
}

// ---------------------------------------------------------------------------
// The cache of remote files
// ---------------------------------------------------------------------------

/// A cache of remote files, stored by content hash in `cache_dir`.
#[derive(Debug)]
pub struct FileCache {
    pub cache_dir: String,
}

/// The cache directory inside the temporary directory `temp_dir`.
pub fn cache_dir_in(temp_dir: &str) -> (r: String)
    ensures
        r@ == join_of(temp_dir@, "kerr_cache"@),
{
    join(temp_dir, "kerr_cache")
}

/// The name of a cached file: its hash, with the extension of the file it
/// copies when that file has one.
pub open spec fn cached_name(hash: Seq<char>, source: Seq<char>) -> Seq<char> {
    match extension_of(source) {
        Some(e) => hash + seq!['.'] + e,
        None => hash,
    }
}

/// Why a fetched file was not cached.
#[derive(Debug, PartialEq, Eq, Structural)]
pub enum CacheError {
    /// The data's hash is not the one the remote announced.
    HashMismatch,
}

impl CacheError {
    /// The text of the error.
    pub fn message(&self) -> (r: String)
        ensures
            r@ == "Hash mismatch: file may have been modified during transfer"@,
    {
        "Hash mismatch: file may have been modified during transfer".to_owned()
    }
}

impl FileCache {
    /// A cache kept in `cache_dir`.
    pub fn with_dir(cache_dir: String) -> (c: Self)
        ensures
            c.cache_dir@ == cache_dir@,
    {
        FileCache { cache_dir }
    }

    /// Where the file with this hash is cached, without extension.
    pub fn get_cached_path(&self, hash: &str) -> (r: String)
        ensures
            r@ == join_of(self.cache_dir@, hash@),
    {
        join(self.cache_dir.as_str(), hash)
    }

    /// Where the file with this hash is cached, keeping the extension of
    /// the path of the file it copies.
    pub fn get_cached_path_with_ext(&self, hash: &str, original_path: &str) -> (r: String)
        ensures
            r@ == join_of(self.cache_dir@, cached_name(hash@, original_path@)),
    {
        match extension(original_path) {
            Some(e) => {
                let name = concat3(hash, ".", e.as_str());
                proof {
                    reveal_strlit(".");
                    assert("."@ =~= seq!['.']);
                }
                join(self.cache_dir.as_str(), name.as_str())
            },
            None => join(self.cache_dir.as_str(), hash),
        }
    }

    /// Checks fetched data against the hash the remote announced.
    pub fn verify_fetched(&self, hash: &str, data: &[u8]) -> (r: Result<(), CacheError>)
        ensures
            r is Ok <==> blake3_hex_of(data@) == hash@,
    {
        let computed = blake3_hex(data);
        let a = chars_of(computed.as_str());
        let b = chars_of(hash);
        if chars_eq(a.as_slice(), b.as_slice()) {
            Ok(())
        } else {
            Err(CacheError::HashMismatch)
        }
    }
}

} // verus!
