//! The change detector, the debounce filter and the conversion pipeline, as
//! steps that take what was observed (a change, the time, what was read) and
//! return what is to be done.

use crate::events::{FileEvent, FileEventView, UpdateEvent, UpdateEventView};
use crate::parser::{parse_document, parse_markdown};
use crate::renderer::document_html;
use crate::text::str_chars;
use crate::websocket::ConnectionManager;
use std::collections::hash_map::DefaultHasher;
use std::hash::Hasher;
use vstd::hash_map::StringHashMap;
use vstd::prelude::*;
use vstd::std_specs::hash::DefaultHasherAdditionalSpecFns;
use vstd::string::StringExecFns;
use vstd::string::StringSliceAdditionalSpecFns;

verus! {

/// The window, in milliseconds, within which a further change to a file is
/// passed over.
pub const DEBOUNCE_MILLIS: u64 = 300;

/// The kind of a raw notification from the file system.
#[derive(Debug, Clone, Copy, PartialEq, Eq)]
pub enum ChangeKind {
    Create,
    Modify,
    Remove,
    Other,
}

/// Whether an extension is `md`, with each letter in upper or lower case.
pub open spec fn is_markdown_extension_text(extension: Seq<char>) -> bool {
    &&& extension.len() == 2
    &&& (extension[0] == 'm' || extension[0] == 'M')
    &&& (extension[1] == 'd' || extension[1] == 'D')
}

/// Whether a file with this extension, if it has one, is a Markdown file.
pub open spec fn is_markdown(extension: Option<Seq<char>>) -> bool {
    extension matches Some(text) && is_markdown_extension_text(text)
}

/// The extension of a path, if it has one, as a value.
pub open spec fn extension_text(extension: Option<&str>) -> Option<Seq<char>> {
    match extension {
        Some(text) => Some(text@),
        None => None,
    }
}

/// Whether a file with this extension is a Markdown file: whether the
/// extension is `md`, with each letter in upper or lower case.
pub fn is_markdown_extension(extension: Option<&str>) -> (markdown: bool)
    ensures
        markdown == is_markdown(extension_text(extension)),
{
    match extension {
        Some(text) => {
            let chars = str_chars(text);
            chars.len() == 2 && (chars[0] == 'm' || chars[0] == 'M') && (chars[1] == 'd'
                || chars[1] == 'D')
        },
        None => false,
    }
}

/// Whether `extension` stands in `path` right behind a dot.
pub open spec fn stands_behind_dot(path: Seq<char>, extension: Seq<char>) -> bool {
    exists|i: int|
        0 <= i && i + 1 + extension.len() <= path.len() && path[i] == '.' && #[trigger] path.subrange(
            i + 1,
            i + 1 + extension.len(),
        ) == extension
}

/// Whether a path holds, somewhere, a dot and behind it `md`, with each
/// letter in upper or lower case.
pub open spec fn holds_markdown_extension(path: Seq<char>) -> bool {
    exists|i: int|
        0 <= i && i + 3 <= path.len() && path[i] == '.' && is_markdown_extension_text(
            #[trigger] path.subrange(i + 1, i + 3),
        )
}

/// `Path::extension` of the path that the text names, as a string. Which
/// part of a path is its file name depends on how the platform splits a
/// path, so it is not said when there is an extension. Where there is one,
/// it is what follows the last dot of the file name: it stands in the path
/// right behind a dot, and holds no dot itself.
#[verifier::external_body]
fn path_extension(path: &str) -> (extension: Option<String>)
    ensures
        extension matches Some(text) ==> stands_behind_dot(path@, text@),
        extension matches Some(text) ==> !text@.contains('.'),
{
    std::path::Path::new(path).extension().and_then(|e| e.to_str()).map(|e| e.to_string())
}

/// Whether the path names a Markdown file, by its extension: whether the
/// platform finds an extension in the path, and that extension is `md` with
/// each letter in upper or lower case. A path that is found to name one
/// holds a dot and behind it `md`.
pub fn is_markdown_file(path: &str) -> (markdown: bool)
    ensures
        markdown ==> holds_markdown_extension(path@),
{
    match path_extension(path) {
        Some(extension) => {
            let markdown = is_markdown_extension(Some(extension.as_str()));
            proof {
                if markdown {
                    let i = choose|i: int|
                        0 <= i && i + 1 + extension@.len() <= path@.len() && path@[i] == '.'
                            && #[trigger] path@.subrange(i + 1, i + 1 + extension@.len())
                            == extension@;
                    assert(is_markdown_extension_text(path@.subrange(i + 1, i + 3)));
                }
            }
            markdown
        },
        None => is_markdown_extension(None),
    }
}

/// The change that a notification stands for: none where the file is no
/// Markdown file or the kind is none of creation, modification and removal.
pub open spec fn classified(kind: ChangeKind, path: Seq<char>, markdown: bool) -> Option<
    FileEventView,
> {
    if !markdown {
        None
    } else {
        match kind {
            ChangeKind::Create => Some(FileEventView::Created(path)),
            ChangeKind::Modify => Some(FileEventView::Modified(path)),
            ChangeKind::Remove => Some(FileEventView::Deleted(path)),
            ChangeKind::Other => None,
        }
    }
}

/// The value of a change, if there is one.
pub open spec fn change_view(change: Option<FileEvent>) -> Option<FileEventView> {
    match change {
        Some(event) => Some(event@),
        None => None,
    }
}

/// Classifies a notification, given whether its path names a Markdown file.
pub fn classify_change(kind: ChangeKind, path: &str, markdown: bool) -> (change: Option<FileEvent>)
    ensures
        change_view(change) == classified(kind, path@, markdown),
{
    if !markdown {
        return None;
    }
    match kind {
        ChangeKind::Create => Some(FileEvent::Created(String::from_str(path))),
        ChangeKind::Modify => Some(FileEvent::Modified(String::from_str(path))),
        ChangeKind::Remove => Some(FileEvent::Deleted(String::from_str(path))),
        ChangeKind::Other => None,
    }
}

/// Classifies a notification: a change to a Markdown file, or nothing.
/// Whether the file is one is decided by the extension that the platform
/// finds in the path. A change is found only in a path that holds a dot and
/// behind it `md`, and never in a notification of another kind than creation,
/// modification and removal.
pub fn detect_change(kind: ChangeKind, path: &str) -> (change: Option<FileEvent>)
    ensures
        change_view(change) == classified(kind, path@, true) || change_view(change)
            == classified(kind, path@, false),
        change is Some ==> holds_markdown_extension(path@),
{
    classify_change(kind, path, is_markdown_file(path))
}

/// What is kept of a watched file: when it was last read, in milliseconds,
/// and the hash of what was last read of it with success.
#[derive(Debug, Clone, Copy, PartialEq, Eq)]
pub struct FileMetadata {
    pub last_modified: u64,
    pub content_hash: Option<u64>,
}

/// The hash of a text: that of the default hasher of the standard library,
/// fed the text's bytes and then the byte `0xff`.
pub open spec fn content_hash(text: Seq<char>) -> u64 {
    DefaultHasher::spec_finish(seq![vstd::utf8::encode_utf8(text), seq![0xffu8]])
}

/// Hashes a text.
pub fn calculate_hash(content: &str) -> (hash: u64)
    ensures
        hash == content_hash(content@),
{
    let mut hasher = DefaultHasher::new();
    hasher.write(content.as_bytes());
    let end: [u8; 1] = [0xff];
    hasher.write(end.as_slice());
    proof {
        assert(end@ =~= seq![0xffu8]);
        assert(hasher@ =~= seq![vstd::utf8::encode_utf8(content@), seq![0xffu8]]);
    }
    hasher.finish()
}

/// The time that has passed from `last` to `now`: none where the clock
/// reads earlier than it did.
pub open spec fn elapsed(last: u64, now: u64) -> int {
    if now >= last {
        now - last
    } else {
        0
    }
}

/// Whether a change to the file at `path` is passed over at `now`: the file
/// was read before, and less than the window has passed since.
pub open spec fn debounced(
    files: Map<Seq<char>, FileMetadata>,
    window: u64,
    path: Seq<char>,
    now: u64,
) -> bool {
    files.contains_key(path) && elapsed(files[path].last_modified, now) < window
}

/// What is to be done about a change.
#[derive(Debug, Clone, PartialEq, Eq)]
pub enum WatchAction {
    /// Nothing: the change came within the window.
    Ignore,
    /// The file at this path is to be read, and what was read handed back.
    Read(String),
    /// This event was published.
    Published(UpdateEvent),
}

/// The mathematical value of a [`WatchAction`].
pub enum WatchActionView {
    Ignore,
    Read(Seq<char>),
    Published(UpdateEventView),
}

impl View for WatchAction {
    type V = WatchActionView;

    open spec fn view(&self) -> WatchActionView {
        match self {
            WatchAction::Ignore => WatchActionView::Ignore,
            WatchAction::Read(path) => WatchActionView::Read(path@),
            WatchAction::Published(update) => WatchActionView::Published(update@),
        }
    }
}

/// What is done about a change. A file that was created or modified is
/// read, unless the change is passed over. A deletion is always published,
/// whenever the file was last read.
pub open spec fn action_for(
    files: Map<Seq<char>, FileMetadata>,
    window: u64,
    event: FileEventView,
    now: u64,
) -> WatchActionView {
    match event {
        FileEventView::Deleted(path) => WatchActionView::Published(
            UpdateEventView::FileDeleted { file_path: path },
        ),
        _ => if debounced(files, window, event.path(), now) {
            WatchActionView::Ignore
        } else {
            WatchActionView::Read(event.path())
        },
    }
}

/// What is kept of the files once a change was handled: a deleted file is
/// forgotten, and nothing else changes.
pub open spec fn files_after_event(
    files: Map<Seq<char>, FileMetadata>,
    event: FileEventView,
) -> Map<Seq<char>, FileMetadata> {
    match event {
        FileEventView::Deleted(path) => files.remove(path),
        _ => files,
    }
}

/// What was read of a file, or why it could not be read, as values.
pub open spec fn read_view(content: Result<String, String>) -> Result<Seq<char>, Seq<char>> {
    match content {
        Ok(text) => Ok(text@),
        Err(reason) => Err(reason@),
    }
}

/// The event that tells of a read: the file's HTML where it was read, and
/// an error that names the path where it was not.
pub open spec fn read_outcome(
    path: Seq<char>,
    content: Result<Seq<char>, Seq<char>>,
) -> UpdateEventView {
    match content {
        Ok(text) => UpdateEventView::ContentUpdate {
            file_path: path,
            html: document_html(parse_document(text)),
        },
        Err(reason) => UpdateEventView::Error {
            message: "Failed to read file "@ + path + ": "@ + reason,
        },
    }
}

/// What is kept of the files once one was read at `now`, or could not be:
/// the time is recorded either way; the hash is that of what was read, or
/// stays what it was where nothing could be read.
pub open spec fn files_after_read(
    files: Map<Seq<char>, FileMetadata>,
    path: Seq<char>,
    content: Result<Seq<char>, Seq<char>>,
    now: u64,
) -> Map<Seq<char>, FileMetadata> {
    files.insert(
        path,
        FileMetadata {
            last_modified: now,
            content_hash: match content {
                Ok(text) => Some(content_hash(text)),
                Err(_) => if files.contains_key(path) {
                    files[path].content_hash
                } else {
                    None
                },
            },
        },
    )
}

/// The watcher: the hub that it publishes to, the debounce window in
/// milliseconds, and what it keeps of each file that it has read.
pub struct FileWatcher {
    pub connection_manager: ConnectionManager,
    pub debounce_duration: u64,
    watched_files: StringHashMap<FileMetadata>,
}

impl FileWatcher {
    /// What the watcher keeps of each file, by path.
    pub closed spec fn files(&self) -> Map<Seq<char>, FileMetadata> {
        self.watched_files@
    }

    /// The debounce window, in milliseconds.
    pub closed spec fn window(&self) -> u64 {
        self.debounce_duration
    }

    /// A watcher that has read no file yet, with the window of 300 ms.
    pub fn new(connection_manager: ConnectionManager) -> (watcher: FileWatcher)
        ensures
            watcher.files() == Map::<Seq<char>, FileMetadata>::empty(),
            watcher.window() == DEBOUNCE_MILLIS,
    {
        FileWatcher {
            connection_manager,
            debounce_duration: DEBOUNCE_MILLIS,
            watched_files: StringHashMap::new(),
        }
    }

    /// Sets the debounce window, in milliseconds.
    pub fn set_debounce_duration(&mut self, millis: u64)
        ensures
            final(self).window() == millis,
            final(self).files() == old(self).files(),
    {
        self.debounce_duration = millis;
    }

    /// What is kept of the file at `path`, if it was read before.
    pub fn metadata(&self, path: &str) -> (found: Option<FileMetadata>)
        ensures
            found == if self.files().contains_key(path@) {
                Some(self.files()[path@])
            } else {
                None
            },
    {
        match self.watched_files.get(path) {
            Some(metadata) => Some(*metadata),
            None => None,
        }
    }

    /// Whether a change to the file at `path`, seen at `now`, is to be
    /// processed: whether it is not passed over.
    pub fn should_process_file(&self, path: &str, now: u64) -> (process: bool)
        ensures
            process == !debounced(self.files(), self.window(), path@, now),
    {
        match self.watched_files.get(path) {
            Some(metadata) => {
                let passed: u64 = if now >= metadata.last_modified {
                    now - metadata.last_modified
                } else {
                    0
                };
                !(passed < self.debounce_duration)
            },
            None => true,
        }
    }

    /// Handles a change to a Markdown file, seen at `now`. A deletion is
    /// published at once and the file forgotten. For a file that was created
    /// or modified the answer is to read it, unless the change is passed over.
    pub fn handle_file_event(&mut self, event: &FileEvent, now: u64) -> (action: WatchAction)
        ensures
            action@ == action_for(old(self).files(), old(self).window(), event@, now),
            final(self).files() == files_after_event(old(self).files(), event@),
            final(self).window() == old(self).window(),
    {
        match event {
            FileEvent::Created(path) => self.read_or_ignore(path, now),
            FileEvent::Modified(path) => self.read_or_ignore(path, now),
            FileEvent::Deleted(path) => {
                let update = UpdateEvent::FileDeleted { file_path: path.clone() };
                self.connection_manager.send_update(
                    UpdateEvent::FileDeleted { file_path: path.clone() },
                );
                self.watched_files.remove(path.as_str());
                WatchAction::Published(update)
            },
        }
    }

    /// The answer to a change to a file that still exists.
    fn read_or_ignore(&self, path: &String, now: u64) -> (action: WatchAction)
        ensures
            action@ == (if debounced(self.files(), self.window(), path@, now) {
                WatchActionView::Ignore
            } else {
                WatchActionView::Read(path@)
            }),
    {
        if self.should_process_file(path.as_str(), now) {
            WatchAction::Read(path.clone())
        } else {
            WatchAction::Ignore
        }
    }

    /// Takes what was read of the file at `path`, or the reason why it could
    /// not be read, and publishes the outcome: the file's HTML, or an error
    /// that names the path. Either way the time of the attempt is recorded.
    /// Returns the event that it published.
    pub fn process_markdown_file(
        &mut self,
        path: &str,
        content: Result<String, String>,
        now: u64,
    ) -> (update: UpdateEvent)
        ensures
            update@ == read_outcome(path@, read_view(content)),
            final(self).files() == files_after_read(
                old(self).files(),
                path@,
                read_view(content),
                now,
            ),
            final(self).window() == old(self).window(),
    {
        match content {
            Ok(text) => match parse_markdown(text.as_str()) {
                Ok(document) => {
                    let html = document.to_html();
                    self.connection_manager.send_update(
                        UpdateEvent::ContentUpdate {
                            file_path: String::from_str(path),
                            html: html.clone(),
                        },
                    );
                    self.watched_files.insert(
                        String::from_str(path),
                        FileMetadata {
                            last_modified: now,
                            content_hash: Some(calculate_hash(text.as_str())),
                        },
                    );
                    UpdateEvent::ContentUpdate { file_path: String::from_str(path), html }
                },
                Err(reason) => {
                    let mut message = String::from_str("Parse error in ");
                    message.append(path);
                    message.append(": ");
                    message.append(reason.as_str());
                    self.connection_manager.send_update(
                        UpdateEvent::Error { message: message.clone() },
                    );
                    UpdateEvent::Error { message }
                },
            },
            Err(reason) => {
                let mut message = String::from_str("Failed to read file ");
                message.append(path);
                message.append(": ");
                message.append(reason.as_str());
                self.connection_manager.send_update(
                    UpdateEvent::Error { message: message.clone() },
                );
                let content_hash = match self.metadata(path) {
                    Some(metadata) => metadata.content_hash,
                    None => None,
                };
                self.watched_files.insert(
                    String::from_str(path),
                    FileMetadata { last_modified: now, content_hash },
                );
                UpdateEvent::Error { message }
            },
        }
    }
}

/// Why a single file cannot be watched.
#[derive(Debug, Clone, PartialEq, Eq)]
pub enum WatchError {
    /// There is no file at this path.
    NotFound(String),
    /// The extension of this path is not `md`.
    NotMarkdown(String),
    /// The path has no parent directory.
    NoParent,
}

/// The mathematical value of a [`WatchError`].
pub enum WatchErrorView {
    NotFound(Seq<char>),
    NotMarkdown(Seq<char>),
    NoParent,
}

impl View for WatchError {
    type V = WatchErrorView;

    open spec fn view(&self) -> WatchErrorView {
        match self {
            WatchError::NotFound(path) => WatchErrorView::NotFound(path@),
            WatchError::NotMarkdown(path) => WatchErrorView::NotMarkdown(path@),
            WatchError::NoParent => WatchErrorView::NoParent,
        }
    }
}

/// The text of an error.
pub open spec fn error_message(error: WatchErrorView) -> Seq<char> {
    match error {
        WatchErrorView::NotFound(path) => "File does not exist: "@ + path,
        WatchErrorView::NotMarkdown(path) => "Not a markdown file: "@ + path,
        WatchErrorView::NoParent => "Cannot determine parent directory"@,
    }
}

impl WatchError {
    /// The text of the error.
    pub fn message(&self) -> (text: String)
        ensures
            text@ == error_message(self@),
    {
        match self {
            WatchError::NotFound(path) => {
                let mut text = String::from_str("File does not exist: ");
                text.append(path.as_str());
                text
            },
            WatchError::NotMarkdown(path) => {
                let mut text = String::from_str("Not a markdown file: ");
                text.append(path.as_str());
                text
            },
            WatchError::NoParent => String::from_str("Cannot determine parent directory"),
        }
    }
}

/// How the watch of a single file starts: the event that was published for
/// the file, if it was processed, and the directory to watch from then on,
/// or why there is none.
#[derive(Debug, PartialEq, Eq)]
pub struct SingleFileStart {
    pub update: Option<UpdateEvent>,
    pub root: Result<String, WatchError>,
}

/// The mathematical value of a [`SingleFileStart`].
pub struct SingleFileStartView {
    pub update: Option<UpdateEventView>,
    pub root: Result<Seq<char>, WatchErrorView>,
}

impl View for SingleFileStart {
    type V = SingleFileStartView;

    open spec fn view(&self) -> SingleFileStartView {
        SingleFileStartView {
            update: match self.update {
                Some(update) => Some(update@),
                None => None,
            },
            root: match self.root {
                Ok(root) => Ok(root@),
                Err(error) => Err(error@),
            },
        }
    }
}

/// Whether a single file is taken up: it exists, and its extension is
/// `md` in lower case.
pub open spec fn single_file_accepted(exists: bool, extension: Option<Seq<char>>) -> bool {
    exists && extension == Some(seq!['m', 'd'])
}

/// How the watch of a single file starts. A file that does not exist or
/// whose extension is not `md` is refused, and nothing is published. Any
/// other file is processed at once, whenever it was last read, and its
/// parent directory is the one to watch.
pub open spec fn single_file_start(
    path: Seq<char>,
    exists: bool,
    extension: Option<Seq<char>>,
    parent: Option<Seq<char>>,
    content: Result<Seq<char>, Seq<char>>,
) -> SingleFileStartView {
    if !exists {
        SingleFileStartView { update: None, root: Err(WatchErrorView::NotFound(path)) }
    } else if extension != Some(seq!['m', 'd']) {
        SingleFileStartView { update: None, root: Err(WatchErrorView::NotMarkdown(path)) }
    } else {
        SingleFileStartView {
            update: Some(read_outcome(path, content)),
            root: match parent {
                Some(directory) => Ok(directory),
                None => Err(WatchErrorView::NoParent),
            },
        }
    }
}

impl FileWatcher {
    /// Starts the watch of a single file, given what was found about its
    /// path (whether a file is there, its extension, its parent directory)
    /// and what was read of it at `now`.
    pub fn watch_single_file(
        &mut self,
        path: &str,
        exists: bool,
        extension: Option<&str>,
        parent: Option<&str>,
        content: Result<String, String>,
        now: u64,
    ) -> (start: SingleFileStart)
        ensures
            start@ == single_file_start(
                path@,
                exists,
                extension_text(extension),
                extension_text(parent),
                read_view(content),
            ),
            final(self).files() == if single_file_accepted(exists, extension_text(extension)) {
                files_after_read(old(self).files(), path@, read_view(content), now)
            } else {
                old(self).files()
            },
            final(self).window() == old(self).window(),
    {
        if !exists {
            return SingleFileStart {
                update: None,
                root: Err(WatchError::NotFound(String::from_str(path))),
            };
        }
        let lower_md = match extension {
            Some(text) => {
                let chars = str_chars(text);
                assert(chars@ == seq!['m', 'd'] <==> (chars@.len() == 2 && chars@[0] == 'm'
                    && chars@[1] == 'd')) by {
                    if chars@.len() == 2 && chars@[0] == 'm' && chars@[1] == 'd' {
                        assert(chars@ =~= seq!['m', 'd']);
                    }
                }
                chars.len() == 2 && chars[0] == 'm' && chars[1] == 'd'
            },
            None => false,
        };
        if !lower_md {
            return SingleFileStart {
                update: None,
                root: Err(WatchError::NotMarkdown(String::from_str(path))),
            };
        }
        let update = self.process_markdown_file(path, content, now);
        let root = match parent {
            Some(directory) => Ok(String::from_str(directory)),
            None => Err(WatchError::NoParent),
        };
        SingleFileStart { update: Some(update), root }
    }
}

/// Debounce. Once a file was read at `first`, a change to it that is seen at
/// `second` is passed over if less than the window lies between the two, and
/// is read again otherwise.
pub proof fn lemma_debounce(
    files: Map<Seq<char>, FileMetadata>,
    window: u64,
    path: Seq<char>,
    content: Result<Seq<char>, Seq<char>>,
    first: u64,
    second: u64,
)
    requires
        first <= second,
    ensures
        second - first < window ==> action_for(
            files_after_read(files, path, content, first),
            window,
            FileEventView::Modified(path),
            second,
        ) == WatchActionView::Ignore,
        second - first >= window ==> action_for(
            files_after_read(files, path, content, first),
            window,
            FileEventView::Modified(path),
            second,
        ) == WatchActionView::Read(path),
{
}

/// Deletion bypasses the debounce. However short a time ago the file was
/// read, its deletion is published, and the file is forgotten, so that the
/// next change to a file at that path is read.
pub proof fn lemma_deletion_bypasses_debounce(
    files: Map<Seq<char>, FileMetadata>,
    window: u64,
    path: Seq<char>,
    now: u64,
    later: u64,
)
    ensures
        action_for(files, window, FileEventView::Deleted(path), now) == WatchActionView::Published(
            UpdateEventView::FileDeleted { file_path: path },
        ),
        !files_after_event(files, FileEventView::Deleted(path)).contains_key(path),
        action_for(
            files_after_event(files, FileEventView::Deleted(path)),
            window,
            FileEventView::Created(path),
            later,
        ) == WatchActionView::Read(path),
{
}

} // verus!
