//! Images of a document: which are being loaded, which were loaded and which
//! failed; and how an image is to be loaded.

use vstd::prelude::*;
use vstd::string::StringExecFns;
use crate::markdown::model::{parse_url, parsed_url};
use crate::text::{
    ends_with, eq_ignore_ascii_case, find, found, lemma_push_to_set, lowercase,
    same_ignoring_ascii_case, starts_with, to_chars, trim_end, trimmed_end,
};

verus! {

/// The bytes of an image as they were loaded from `url`.
#[derive(Clone, Debug, PartialEq, Eq)]
pub struct Image {
    pub bytes: Vec<u8>,
    pub url: String,
    pub is_svg: bool,
}

/// How far the loading of an image has come. `H` is what the host keeps of a
/// loaded image.
#[derive(Debug, PartialEq, Eq)]
pub enum ImageState<H> {
    Loading,
    Ready(H),
    Failed,
}

/// An image that the table knows: its URL and its state.
pub struct Known<H> {
    pub url: String,
    pub state: ImageState<H>,
}

/// The map that a sequence of known images describes: a later entry for a
/// URL replaces an earlier one.
pub open spec fn known_map<H>(entries: Seq<Known<H>>) -> Map<Seq<char>, ImageState<H>>
    decreases entries.len(),
{
    if entries.len() == 0 {
        Map::empty()
    } else {
        known_map(entries.drop_last()).insert(entries.last().url@, entries.last().state)
    }
}

/// The images that a document tracks, from URL to state.
pub struct ImageTable<H> {
    entries: Vec<Known<H>>,
}

impl<H> View for ImageTable<H> {
    type V = Map<Seq<char>, ImageState<H>>;

    closed spec fn view(&self) -> Map<Seq<char>, ImageState<H>> {
        known_map(self.entries@)
    }
}

proof fn lemma_known_skips<H>(entries: Seq<Known<H>>, url: Seq<char>, from: int)
    requires
        0 <= from <= entries.len(),
        forall|j: int| from <= j < entries.len() ==> entries[j].url@ != url,
    ensures
        known_map(entries).contains_key(url) == known_map(entries.take(from)).contains_key(url),
        known_map(entries).contains_key(url) ==> known_map(entries)[url] == known_map(
            entries.take(from),
        )[url],
    decreases entries.len() - from,
{
    if from == entries.len() {
        assert(entries.take(from) =~= entries);
    } else {
        lemma_known_skips(entries.drop_last(), url, from);
        assert(entries.drop_last().take(from) =~= entries.take(from));
    }
}

proof fn lemma_known_replace<H>(entries: Seq<Known<H>>, at: int, entry: Known<H>)
    requires
        0 <= at < entries.len(),
        entries[at].url@ == entry.url@,
        forall|j: int| at < j < entries.len() ==> entries[j].url@ != entry.url@,
    ensures
        known_map(entries.update(at, entry)) == known_map(entries).insert(
            entry.url@,
            entry.state,
        ),
    decreases entries.len(),
{
    let updated = entries.update(at, entry);
    if at == entries.len() - 1 {
        assert(updated.drop_last() =~= entries.drop_last());
    } else {
        lemma_known_replace(entries.drop_last(), at, entry);
        assert(updated.drop_last() =~= entries.drop_last().update(at, entry));
    }
}

/// What stands in a document at the place of an image.
#[derive(Debug, PartialEq, Eq)]
pub enum Placeholder<'a, H> {
    /// The image itself.
    Picture(&'a H),
    /// The words that say that the image is being loaded.
    Loading,
    /// The words that say that the image could not be loaded.
    Failed,
    /// A sensor that asks for the image once it comes into view.
    Sensor,
}

/// The table after the image at `url` came into view: an image that is not
/// tracked is being loaded from now on, and the table of a tracked image
/// stays as it is.
pub open spec fn discovered<H>(table: Map<Seq<char>, ImageState<H>>, url: Seq<char>) -> Map<
    Seq<char>,
    ImageState<H>,
> {
    if table.contains_key(url) {
        table
    } else {
        table.insert(url, ImageState::Loading)
    }
}

/// Whether the image at `url` has to be fetched when it comes into view.
pub open spec fn needs_fetch<H>(table: Map<Seq<char>, ImageState<H>>, url: Seq<char>) -> bool {
    !table.contains_key(url)
}

/// The table after the fetch of the image at `url` ended, with what the host
/// keeps of the image or with nothing where it failed.
pub open spec fn loaded<H>(
    table: Map<Seq<char>, ImageState<H>>,
    url: Seq<char>,
    result: Option<H>,
) -> Map<Seq<char>, ImageState<H>> {
    table.insert(
        url,
        match result {
            Some(handle) => ImageState::Ready(handle),
            None => ImageState::Failed,
        },
    )
}

impl<H> ImageTable<H> {
    /// A table that tracks no image.
    pub fn new() -> (table: Self)
        ensures
            table@ == Map::<Seq<char>, ImageState<H>>::empty(),
    {
        ImageTable { entries: Vec::new() }
    }

    /// The index of the last entry for `url`.
    fn position(&self, url: &String) -> (found: Option<usize>)
        ensures
            match found {
                Some(at) => {
                    &&& at < self.entries.len()
                    &&& self.entries[at as int].url@ == url@
                    &&& forall|j: int| at < j < self.entries.len() ==> self.entries[j].url@ != url@
                    &&& self@.contains_key(url@)
                    &&& self@[url@] == self.entries[at as int].state
                },
                None => !self@.contains_key(url@),
            },
    {
        let mut i: usize = self.entries.len();
        while i > 0
            invariant
                i <= self.entries.len(),
                forall|j: int| i <= j < self.entries.len() ==> self.entries[j].url@ != url@,
            decreases i,
        {
            i -= 1;
            if self.entries[i].url == *url {
                proof {
                    lemma_known_skips(self.entries@, url@, i + 1);
                }
                return Some(i);
            }
        }
        proof {
            lemma_known_skips(self.entries@, url@, 0);
        }
        None
    }

    /// The state of the image at `url`, if it is tracked.
    pub fn state(&self, url: &str) -> (state: Option<&ImageState<H>>)
        ensures
            match state {
                Some(found) => self@.contains_key(url@) && *found == self@[url@],
                None => !self@.contains_key(url@),
            },
    {
        match self.position(&url.to_owned()) {
            Some(at) => Some(&self.entries[at].state),
            None => None,
        }
    }

    /// What stands at the place of the image at `url`: the image once it is
    /// loaded, words while it is being loaded or after it failed, and a sensor
    /// while it is not tracked.
    pub fn placeholder(&self, url: &str) -> (shown: Placeholder<'_, H>)
        ensures
            match shown {
                Placeholder::Picture(handle) => self@.contains_key(url@) && self@[url@]
                    == ImageState::Ready(*handle),
                Placeholder::Loading => self@.contains_key(url@) && self@[url@]
                    == ImageState::<H>::Loading,
                Placeholder::Failed => self@.contains_key(url@) && self@[url@]
                    == ImageState::<H>::Failed,
                Placeholder::Sensor => !self@.contains_key(url@),
            },
    {
        match self.state(url) {
            Some(ImageState::Ready(handle)) => Placeholder::Picture(handle),
            Some(ImageState::Loading) => Placeholder::Loading,
            Some(ImageState::Failed) => Placeholder::Failed,
            None => Placeholder::Sensor,
        }
    }

    /// Puts `state` down for the image at `url`.
    fn set(&mut self, url: String, state: ImageState<H>)
        ensures
            final(self)@ == old(self)@.insert(url@, state),
    {
        let found = self.position(&url);
        let entry = Known { url, state };
        match found {
            Some(at) => {
                proof {
                    lemma_known_replace(self.entries@, at as int, entry);
                }
                self.entries[at] = entry;
            },
            None => {
                assert(self.entries@.push(entry).drop_last() =~= self.entries@);
                self.entries.push(entry);
            },
        }
    }

    /// The image at `url` came into view. Says whether it has to be fetched,
    /// which is so exactly when it was not tracked; it is then being loaded.
    pub fn on_url_discovered(&mut self, url: &str) -> (fetch: bool)
        ensures
            fetch == needs_fetch(old(self)@, url@),
            final(self)@ == discovered(old(self)@, url@),
    {
        let owned = url.to_owned();
        if self.position(&owned).is_some() {
            false
        } else {
            self.set(owned, ImageState::Loading);
            true
        }
    }

    /// The fetch of the image at `url` ended, with what the host keeps of the
    /// image or with nothing where it failed.
    pub fn on_loaded(&mut self, url: &str, result: Option<H>)
        ensures
            final(self)@ == loaded(old(self)@, url@, result),
    {
        let state = match result {
            Some(handle) => ImageState::Ready(handle),
            None => ImageState::Failed,
        };
        self.set(url.to_owned(), state);
    }
}

/// An image that came into view is tracked from then on, so it is fetched at
/// most once: when it comes into view again nothing is fetched and nothing
/// changes, however many blocks show it.
pub proof fn lemma_discovered_once<H>(table: Map<Seq<char>, ImageState<H>>, url: Seq<char>)
    ensures
        !needs_fetch(discovered(table, url), url),
        discovered(discovered(table, url), url) == discovered(table, url),
{
}

/// An image that comes into view never changes the state of an image that is
/// tracked: what is ready or failed is not loaded again.
pub proof fn lemma_discovered_keeps_states<H>(
    table: Map<Seq<char>, ImageState<H>>,
    url: Seq<char>,
    other: Seq<char>,
)
    requires
        table.contains_key(other),
    ensures
        discovered(table, url).contains_key(other),
        discovered(table, url)[other] == table[other],
{
}

/// When a fetch ends, every block that shows the image sees the same state,
/// and the state of no other image changes.
pub proof fn lemma_loaded_is_shared<H>(
    table: Map<Seq<char>, ImageState<H>>,
    url: Seq<char>,
    result: Option<H>,
    other: Seq<char>,
)
    ensures
        loaded(table, url, result).contains_key(url),
        result is Some ==> loaded(table, url, result)[url] == ImageState::Ready(result->0),
        result is None ==> loaded(table, url, result)[url] == ImageState::<H>::Failed,
        other != url ==> loaded(table, url, result).contains_key(other) == table.contains_key(other),
        other != url && table.contains_key(other) ==> loaded(table, url, result)[other]
            == table[other],
{
}

/// The set of the strings in `urls`.
pub open spec fn url_set(urls: Seq<String>) -> Set<Seq<char>> {
    Seq::new(urls.len(), |i: int| urls[i]@).to_set()
}

/// The links among the first `upto` of `links` that are to be fetched: those
/// that are not in progress and did not come before.
pub open spec fn to_fetch(links: Seq<Seq<char>>, in_progress: Set<Seq<char>>, upto: int) -> Seq<
    Seq<char>,
>
    decreases upto,
{
    if upto <= 0 {
        Seq::empty()
    } else {
        let before = to_fetch(links, in_progress, upto - 1);
        let link = links[upto - 1];
        if in_progress.contains(link) || links.take(upto - 1).contains(link) {
            before
        } else {
            before.push(link)
        }
    }
}

/// Notes the image links of a document as in progress and gives those that
/// are to be fetched, in order: each link that was not in progress, once.
pub fn download_images(links: &Vec<String>, images_in_progress: &mut Vec<String>) -> (fetch: Vec<
    String,
>)
    ensures
        url_set(final(images_in_progress)@) == url_set(old(images_in_progress)@).union(
            url_set(links@),
        ),
        Seq::new(fetch@.len(), |i: int| fetch@[i]@) == to_fetch(
            Seq::new(links@.len(), |i: int| links@[i]@),
            url_set(old(images_in_progress)@),
            links@.len() as int,
        ),
{
    let ghost all = Seq::new(links@.len(), |i: int| links@[i]@);
    let ghost known = url_set(images_in_progress@);
    let mut fetch: Vec<String> = Vec::new();
    let mut i: usize = 0;
    while i < links.len()
        invariant
            i <= links.len(),
            all == Seq::new(links@.len(), |i: int| links@[i]@),
            url_set(images_in_progress@) == known.union(all.take(i as int).to_set()),
            Seq::new(fetch@.len(), |i: int| fetch@[i]@) == to_fetch(all, known, i as int),
        decreases links.len() - i,
    {
        let ghost noted = Seq::new(images_in_progress@.len(), |i: int| images_in_progress@[i]@);
        proof {
            assert(all.take(i + 1) =~= all.take(i as int).push(all[i as int]));
            lemma_push_to_set(all.take(i as int), all[i as int]);
        }
        if !holds(images_in_progress, &links[i]) {
            images_in_progress.push(links[i].clone());
            fetch.push(links[i].clone());
            proof {
                lemma_push_to_set(noted, all[i as int]);
                assert(Seq::new(images_in_progress@.len(), |i: int| images_in_progress@[i]@)
                    =~= noted.push(all[i as int]));
            }
        }
        i += 1;
    }
    assert(all.take(links@.len() as int) =~= all);
    fetch
}

/// Whether `url` is among `urls`.
fn holds(urls: &Vec<String>, url: &String) -> (found: bool)
    ensures
        found == url_set(urls@).contains(url@),
{
    let ghost all = Seq::new(urls@.len(), |i: int| urls@[i]@);
    let mut i: usize = 0;
    while i < urls.len()
        invariant
            i <= urls.len(),
            all == Seq::new(urls@.len(), |i: int| urls@[i]@),
            forall|j: int| 0 <= j < i ==> all[j] != url@,
        decreases urls.len() - i,
    {
        if urls[i] == *url {
            assert(all[i as int] == url@);
            return true;
        }
        i += 1;
    }
    false
}

/// Why an image could not be loaded before any byte was read.
#[derive(Clone, Debug, PartialEq, Eq)]
pub enum LoadError {
    /// The URL is relative and the document has no place on disk.
    NoBasePath,
    /// The place of the document has no directory above it.
    NoParentDirectory,
    /// The URL cannot be read as a URL.
    InvalidUrl,
    /// The URL names a file, but not by a path of this machine.
    InvalidFilePath,
    /// The URL has a scheme that is not loaded from; the scheme is given.
    UnsupportedScheme(String),
}

/// From where an image is loaded.
#[derive(Clone, Copy, Debug, PartialEq, Eq, Structural)]
pub enum Fetch {
    /// From a file on this machine.
    File,
    /// From the web.
    Web,
}

/// Whether `url` says by itself where the image is: it begins with the
/// scheme of the web or of files.
pub open spec fn is_absolute(url: Seq<char>) -> bool {
    "http://"@.is_prefix_of(url) || "https://"@.is_prefix_of(url) || "file://"@.is_prefix_of(url)
}

/// Whether `url` says by itself where the image is; a URL that does not is a
/// path relative to the directory of the document.
pub fn is_absolute_url(url: &str) -> (absolute: bool)
    ensures
        absolute == is_absolute(url@),
{
    let chars = to_chars(url);
    starts_with(&chars, &to_chars("http://")) || starts_with(&chars, &to_chars("https://"))
        || starts_with(&chars, &to_chars("file://"))
}

/// The directory under which a relative URL is looked for.
#[derive(Clone, Copy, Debug, PartialEq, Eq, Structural)]
pub enum Root {
    /// The place of the document itself, which is a directory.
    Base,
    /// The directory that holds the document.
    ParentOfBase,
}

/// How the place of an image is found from its URL.
#[derive(Clone, Copy, Debug, PartialEq, Eq, Structural)]
pub enum Resolution {
    /// The URL says by itself where the image is.
    AsGiven,
    /// The URL is a path under this directory.
    Under(Root),
}

/// How the place of the image at `url` is found. An absolute URL is taken as
/// it is. A relative one needs the place of the document: without it there is
/// no image; the place itself is the directory where it is one, else the
/// directory that holds it, and without such a directory there is no image.
pub open spec fn resolved(
    url: Seq<char>,
    has_base: bool,
    base_is_dir: bool,
    base_has_parent: bool,
) -> Result<Resolution, LoadError> {
    if is_absolute(url) {
        Ok(Resolution::AsGiven)
    } else if !has_base {
        Err(LoadError::NoBasePath)
    } else if base_is_dir {
        Ok(Resolution::Under(Root::Base))
    } else if base_has_parent {
        Ok(Resolution::Under(Root::ParentOfBase))
    } else {
        Err(LoadError::NoParentDirectory)
    }
}

/// How the place of the image at `url` is found, given whether the document
/// has a place on disk, whether that place is a directory, and whether it has
/// a directory above it. What is said of the place counts only where there is
/// one.
pub fn resolution(url: &str, has_base: bool, base_is_dir: bool, base_has_parent: bool) -> (r:
    Result<Resolution, LoadError>)
    ensures
        r == resolved(url@, has_base, base_is_dir, base_has_parent),
{
    if is_absolute_url(url) {
        Ok(Resolution::AsGiven)
    } else if !has_base {
        Err(LoadError::NoBasePath)
    } else if base_is_dir {
        Ok(Resolution::Under(Root::Base))
    } else if base_has_parent {
        Ok(Resolution::Under(Root::ParentOfBase))
    } else {
        Err(LoadError::NoParentDirectory)
    }
}

/// The URL of the file at `path`.
pub fn file_url(path: &str) -> (url: String)
    ensures
        url@ == "file://"@ + path@,
{
    let mut url = String::from_str("file://");
    url.append(path);
    url
}

/// From where the image at the absolute URL `url` is loaded, by its scheme.
pub open spec fn fetch_of(url: Seq<char>) -> Result<Fetch, Seq<char>> {
    match parsed_url(url) {
        Some(parsed) => if parsed.scheme == "file"@ {
            Ok(Fetch::File)
        } else if parsed.scheme == "http"@ || parsed.scheme == "https"@ {
            Ok(Fetch::Web)
        } else {
            Err(parsed.scheme)
        },
        None => Err(Seq::empty()),
    }
}

/// From where the image at the absolute URL `url` is loaded: from a file for
/// the scheme `file`, from the web for `http` and `https`. A text that is no
/// URL and a URL with another scheme are errors.
pub fn fetch_kind(url: &str) -> (kind: Result<Fetch, LoadError>)
    ensures
        match kind {
            Ok(fetch) => fetch_of(url@) == Ok::<Fetch, Seq<char>>(fetch),
            Err(LoadError::InvalidUrl) => parsed_url(url@) is None,
            Err(LoadError::UnsupportedScheme(scheme)) => parsed_url(url@) is Some && fetch_of(url@)
                == Err::<Fetch, Seq<char>>(scheme@),
            Err(_) => false,
        },
{
    match parse_url(url) {
        Some(parsed) => {
            if parsed.scheme == String::from_str("file") {
                Ok(Fetch::File)
            } else if parsed.scheme == String::from_str("http") || parsed.scheme
                == String::from_str("https") {
                Ok(Fetch::Web)
            } else {
                Err(LoadError::UnsupportedScheme(parsed.scheme))
            }
        },
        None => Err(LoadError::InvalidUrl),
    }
}

/// Whether a file with this extension holds an SVG image.
pub open spec fn is_svg_by_extension(extension: Option<Seq<char>>) -> bool {
    match extension {
        Some(ext) => same_ignoring_ascii_case(ext, "svg"@),
        None => false,
    }
}

/// Whether a file with this extension holds an SVG image: the extension is
/// `svg`, in capital or small letters.
pub fn is_svg_extension(extension: Option<&str>) -> (svg: bool)
    ensures
        svg == is_svg_by_extension(
            match extension {
                Some(ext) => Some(ext@),
                None => None,
            },
        ),
{
    match extension {
        Some(ext) => eq_ignore_ascii_case(&to_chars(ext), &to_chars("svg")),
        None => false,
    }
}

/// Whether what the web answered for `url` is an SVG image.
pub open spec fn is_svg_by_response(content_type: Option<Seq<char>>, url: Seq<char>) -> bool {
    ||| (content_type is Some && found(content_type->0, "svg"@) is Some)
    ||| ".svg"@.is_suffix_of(lowercase(trimmed_end(url)))
}

/// Whether what the web answered for `url` is an SVG image: the content type
/// of the answer holds `svg`, or the URL ends in `.svg`, in capital or small
/// letters, before the white space at its end.
pub fn is_svg_response(content_type: Option<&str>, url: &str) -> (svg: bool)
    ensures
        svg == is_svg_by_response(
            match content_type {
                Some(kind) => Some(kind@),
                None => None,
            },
            url@,
        ),
{
    let by_type = match content_type {
        Some(kind) => find(&to_chars(kind), &to_chars("svg")).is_some(),
        None => false,
    };
    if by_type {
        return true;
    }
    let trimmed = crate::text::to_string(&trim_end(&to_chars(url)));
    let lowered = trimmed.as_str().to_lowercase();
    ends_with(&to_chars(lowered.as_str()), &to_chars(".svg"))
}

impl LoadError {
    /// The words for this error.
    pub fn message(&self) -> (words: String)
        ensures
            match *self {
                LoadError::NoBasePath => words@ == "No base path for relative URL"@,
                LoadError::NoParentDirectory => words@ == "No parent directory"@,
                LoadError::InvalidUrl => words@ == "Invalid URL"@,
                LoadError::InvalidFilePath => words@ == "Invalid file path"@,
                LoadError::UnsupportedScheme(scheme) => words@ == "Unsupported URL scheme: "@
                    + scheme@,
            },
    {
        match self {
            LoadError::NoBasePath => String::from_str("No base path for relative URL"),
            LoadError::NoParentDirectory => String::from_str("No parent directory"),
            LoadError::InvalidUrl => String::from_str("Invalid URL"),
            LoadError::InvalidFilePath => String::from_str("Invalid file path"),
            LoadError::UnsupportedScheme(scheme) => {
                let mut words = String::from_str("Unsupported URL scheme: ");
                words.append(scheme.as_str());
                words
            },
        }
    }
}

} // verus!
