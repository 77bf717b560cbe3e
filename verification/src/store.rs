//! The preset store: the persisted document, cached in memory, with the
//! backing file read through on the first load and written through on every
//! save.
//!
//! The store never touches the file itself. The caller reads or writes it
//! and reports how that went; the store decides what is returned and what
//! the cache holds afterwards. A caller that shares the store between
//! threads holds one lock over it for the whole of a load or a save, file
//! access included.

use vstd::prelude::*;
use std::path::PathBuf;
use crate::presets::{PersistedState, PersistedStateView};

verus! {

/// `std::path::PathBuf`, made known to the verifier as an opaque type so
/// that the store can hold one. Nothing is claimed of it: the store carries
/// the path for its caller and never looks inside.
#[verifier::external_type_specification]
#[verifier::external_body]
pub struct ExPathBuf(PathBuf);

/// How reading the backing file went.
#[derive(Debug, PartialEq, Eq)]
pub enum FileRead {
    /// There is no file. Not an error: nothing was ever saved.
    Missing,
    /// The file was read and holds this document.
    Loaded(PersistedState),
    /// The file was read and does not hold a document; the message says why.
    Corrupt(String),
    /// The file is there and could not be read; the message says why.
    Failed(String),
}

/// Why a load or a save failed.
#[derive(Debug, PartialEq, Eq)]
pub enum PersistedStateError {
    /// Reading or writing the backing file failed.
    Io(String),
    /// The backing file does not hold a document.
    Corrupt(String),
}

/// What a [`FileRead`] holds.
pub enum FileReadView {
    Missing,
    Loaded(PersistedStateView),
    Corrupt(Seq<char>),
    Failed(Seq<char>),
}

/// What a [`PersistedStateError`] holds.
pub enum PersistedStateErrorView {
    Io(Seq<char>),
    Corrupt(Seq<char>),
}

impl View for FileRead {
    type V = FileReadView;

    open spec fn view(&self) -> FileReadView {
        match self {
            FileRead::Missing => FileReadView::Missing,
            FileRead::Loaded(state) => FileReadView::Loaded(state@),
            FileRead::Corrupt(message) => FileReadView::Corrupt(message@),
            FileRead::Failed(message) => FileReadView::Failed(message@),
        }
    }
}

impl View for PersistedStateError {
    type V = PersistedStateErrorView;

    open spec fn view(&self) -> PersistedStateErrorView {
        match self {
            PersistedStateError::Io(message) => PersistedStateErrorView::Io(message@),
            PersistedStateError::Corrupt(message) => PersistedStateErrorView::Corrupt(message@),
        }
    }
}

impl PersistedStateErrorView {
    /// The message carried by the error.
    pub open spec fn message(self) -> Seq<char> {
        match self {
            PersistedStateErrorView::Io(message) => message,
            PersistedStateErrorView::Corrupt(message) => message,
        }
    }
}

impl PersistedStateError {
    /// The message to show for the error: the one that the failed file
    /// access or the parser gave.
    pub fn message(&self) -> (text: String)
        ensures
            text@ == self@.message(),
    {
        match self {
            PersistedStateError::Io(message) => message.clone(),
            PersistedStateError::Corrupt(message) => message.clone(),
        }
    }
}

/// What a load returns, given what the cache holds and how reading the file
/// went: the cached document if there is one, whatever the file holds; else
/// the document read, the initial document where there is no file, and an
/// error where the file is unreadable or holds no document.
pub open spec fn load_result(cached: Option<PersistedStateView>, read: FileReadView) -> Result<PersistedStateView, PersistedStateErrorView> {
    match cached {
        Some(state) => Ok(state),
        None => match read {
            FileReadView::Missing => Ok(PersistedStateView::initial()),
            FileReadView::Loaded(state) => Ok(state),
            FileReadView::Corrupt(message) => Err(PersistedStateErrorView::Corrupt(message)),
            FileReadView::Failed(message) => Err(PersistedStateErrorView::Io(message)),
        },
    }
}

/// What the cache holds after a load: what the load returned, or what it
/// held before where the load failed.
pub open spec fn cache_after_load(cached: Option<PersistedStateView>, read: FileReadView) -> Option<PersistedStateView> {
    match load_result(cached, read) {
        Ok(state) => Some(state),
        Err(_) => cached,
    }
}

/// What a save returns, given how writing the file went: the document
/// saved, or the write's error.
pub open spec fn save_result(state: PersistedStateView, written: Result<(), String>) -> Result<PersistedStateView, PersistedStateErrorView> {
    match written {
        Ok(_) => Ok(state),
        Err(message) => Err(PersistedStateErrorView::Io(message@)),
    }
}

/// What the cache holds after a save: the document saved, or what it held
/// before where the write failed.
pub open spec fn cache_after_save(cached: Option<PersistedStateView>, state: PersistedStateView, written: Result<(), String>) -> Option<PersistedStateView> {
    match written {
        Ok(_) => Some(state),
        Err(_) => cached,
    }
}

/// A result of the store by what it holds.
pub open spec fn outcome_view(outcome: Result<PersistedState, PersistedStateError>) -> Result<PersistedStateView, PersistedStateErrorView> {
    match outcome {
        Ok(state) => Ok(state@),
        Err(error) => Err(error@),
    }
}

/// The cached document and the place of its backing file.
pub struct PresetStateStore {
    path: PathBuf,
    cache: Option<PersistedState>,
}

impl PresetStateStore {
    /// What the cache holds.
    pub closed spec fn cached(&self) -> Option<PersistedStateView> {
        match self.cache {
            Some(state) => Some(state@),
            None => None,
        }
    }

    /// Where the backing file is.
    pub closed spec fn location(&self) -> PathBuf {
        self.path
    }

    /// A store for the file at `path`, its cache filled with `initial` where
    /// the caller has read the file already.
    pub fn new(path: PathBuf, initial: Option<PersistedState>) -> (store: PresetStateStore)
        ensures
            store.location() == path,
            store.cached() == match initial {
                Some(state) => Some(state@),
                None => None,
            },
    {
        PresetStateStore { path, cache: initial }
    }

    /// Where the backing file is.
    pub fn path(&self) -> (path: &PathBuf)
        ensures
            *path == self.location(),
    {
        &self.path
    }

    /// The cached document, if there is one. Where there is, a load needs no
    /// file access.
    pub fn cached_state(&self) -> (state: Option<PersistedState>)
        ensures
            match state {
                Some(s) => self.cached() == Some(s@),
                None => self.cached() is None,
            },
    {
        match &self.cache {
            Some(state) => Some(state.clone()),
            None => None,
        }
    }

    /// Loads the document. `read` says how reading the backing file went,
    /// and is looked at only where the cache is empty.
    ///
    /// With a cached document, returns it. Else returns the document read
    /// and caches it; where there is no file, returns the initial document
    /// and caches that; where the file holds no document or could not be
    /// read, returns the error and leaves the cache empty.
    pub fn load_state(&mut self, read: FileRead) -> (outcome: Result<PersistedState, PersistedStateError>)
        ensures
            outcome_view(outcome) == load_result(old(self).cached(), read@),
            final(self).cached() == cache_after_load(old(self).cached(), read@),
            final(self).location() == old(self).location(),
    {
        if let Some(state) = &self.cache {
            return Ok(state.clone());
        }
        match read {
            FileRead::Missing => {
                let state: PersistedState = PersistedState::default();
                self.cache = Some(state.clone());
                Ok(state)
            },
            FileRead::Loaded(state) => {
                self.cache = Some(state.clone());
                Ok(state)
            },
            FileRead::Corrupt(message) => Err(PersistedStateError::Corrupt(message)),
            FileRead::Failed(message) => Err(PersistedStateError::Io(message)),
        }
    }

    /// Completes a save of `state`. `written` says how writing the whole
    /// document to the backing file went.
    ///
    /// After a successful write, caches `state` and returns it. After a
    /// failed one, returns the error and leaves the cache as it was, so that
    /// later loads still return what they returned before.
    pub fn save_state(&mut self, state: PersistedState, written: Result<(), String>) -> (outcome: Result<PersistedState, PersistedStateError>)
        ensures
            outcome_view(outcome) == save_result(state@, written),
            final(self).cached() == cache_after_save(old(self).cached(), state@, written),
            final(self).location() == old(self).location(),
    {
        match written {
            Ok(_) => {
                self.cache = Some(state.clone());
                Ok(state)
            },
            Err(message) => Err(PersistedStateError::Io(message)),
        }
    }
}

/// A saved document is what the next load returns, whatever the cache held
/// before and whatever the file is found to hold.
pub proof fn lemma_load_after_save(cached: Option<PersistedStateView>, state: PersistedStateView, read: FileReadView)
    ensures
        load_result(cache_after_save(cached, state, Ok(())), read) == Ok::<
            PersistedStateView,
            PersistedStateErrorView,
        >(state),
        cache_after_load(cache_after_save(cached, state, Ok(())), read) == Some(state),
{
}

/// A store with an empty cache whose file was never written loads the
/// initial document.
pub proof fn lemma_first_load_without_file()
    ensures
        load_result(None, FileReadView::Missing) == Ok::<
            PersistedStateView,
            PersistedStateErrorView,
        >(PersistedStateView::initial()),
{
}

/// A failed save changes nothing: the cache, and with it the result of
/// every later load, is as before.
pub proof fn lemma_failed_save_keeps_cache(cached: Option<PersistedStateView>, state: PersistedStateView, message: String, read: FileReadView)
    ensures
        cache_after_save(cached, state, Err(message)) == cached,
        load_result(cache_after_save(cached, state, Err(message)), read) == load_result(
            cached,
            read,
        ),
{
}

/// Two successful saves, one after the other in either order, leave exactly
/// one of the two documents in the cache: the one saved last.
pub proof fn lemma_saves_leave_one_document(cached: Option<PersistedStateView>, first: PersistedStateView, second: PersistedStateView)
    ensures
        cache_after_save(cache_after_save(cached, first, Ok(())), second, Ok(())) == Some(second),
        cache_after_save(cache_after_save(cached, second, Ok(())), first, Ok(())) == Some(first),
{
}

/// Once a load has succeeded, every later load returns the same document
/// without regard to the file.
pub proof fn lemma_load_is_cached(cached: Option<PersistedStateView>, read: FileReadView, later: FileReadView)
    requires
        load_result(cached, read) is Ok,
    ensures
        load_result(cache_after_load(cached, read), later) == load_result(cached, read),
{
}

} // verus!
