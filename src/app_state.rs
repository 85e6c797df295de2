//! The live session: the open document, the read offset and the
//! configuration, guarded as one unit by a reader/writer lock.
use vstd::prelude::*;
use vstd::rwlock::{ReadHandle, RwLock, RwLockPredicate, WriteHandle};
use vstd::utf8::encode_utf8;

use crate::settings::AppConfig;

verus! {

/// Length of a text in bytes of its UTF-8 encoding, the unit of offsets,
/// as `str::len` reports it.
pub open spec fn text_len(text: Seq<char>) -> nat {
    (encode_utf8(text).len() as usize) as nat
}

pub open spec fn min_nat(a: nat, b: nat) -> nat {
    if a <= b {
        a
    } else {
        b
    }
}

/// A point-in-time view of the session.
pub struct StateSnapshot {
    pub file_path: Option<String>,
    pub text: String,
    pub current_offset: usize,
    pub config: AppConfig,
}

impl StateSnapshot {
    /// The offset never points past the end of the text.
    pub open spec fn inv(&self) -> bool {
        self.current_offset <= text_len(self.text@)
    }

    /// Where a fresh load of `path` with content `text` starts: the
    /// remembered offset (clamped) when `path` is the remembered file, else 0.
    pub open spec fn resume_offset(&self, path: Seq<char>, text: Seq<char>) -> nat {
        match self.config.last_file {
            Some(p) => if p@ == path {
                min_nat(self.config.last_offset as nat, text_len(text))
            } else {
                0
            },
            None => 0,
        }
    }

    /// The session after opening `path` with decoded content `text`.
    pub open spec fn with_document(self, path: String, text: String) -> StateSnapshot {
        let offset = self.resume_offset(path@, text@) as usize;
        StateSnapshot {
            file_path: Some(path),
            text: text,
            current_offset: offset,
            config: AppConfig {
                last_file: Some(path),
                last_page: 0,
                last_offset: offset,
                ..self.config
            },
        }
    }

    /// The session after the reader reports position `offset`.
    pub open spec fn with_progress(self, offset: usize) -> StateSnapshot {
        let stored = min_nat(offset as nat, text_len(self.text@)) as usize;
        StateSnapshot {
            current_offset: stored,
            config: AppConfig { last_offset: stored, ..self.config },
            ..self
        }
    }

    /// The session after taking every user-facing setting from `settings`.
    pub open spec fn with_settings(self, settings: AppConfig) -> StateSnapshot {
        StateSnapshot {
            config: AppConfig {
                boss_key: settings.boss_key,
                max_chars_per_page: settings.max_chars_per_page,
                appearance: settings.appearance,
                reading: settings.reading,
                privacy: settings.privacy,
                keybindings: settings.keybindings,
                system: settings.system,
                ..self.config
            },
            ..self
        }
    }

    /// `self` is `prev` with every setting back at its default and the
    /// document, offset and session-resume fields kept.
    pub open spec fn is_reset_of(self, prev: StateSnapshot) -> bool {
        &&& self.file_path == prev.file_path
        &&& self.text == prev.text
        &&& self.current_offset == prev.current_offset
        &&& self.config.same_resume_state(&prev.config)
        &&& self.config.settings_are_default()
    }

    /// The empty session around a loaded configuration.
    pub fn new(config: AppConfig) -> (r: Self)
        ensures
            r.file_path is None,
            r.text@.len() == 0,
            r.current_offset == 0,
            r.config == config,
            r.inv(),
    {
        let r = StateSnapshot { file_path: None, text: String::new(), current_offset: 0, config };
        assert(encode_utf8(r.text@) =~= Seq::<u8>::empty());
        r
    }

    /// Length of the text in bytes.
    pub fn text_len(&self) -> (r: usize)
        ensures
            r == text_len(self.text@),
    {
        self.text.as_str().len()
    }

    pub fn duplicate(&self) -> (r: Self)
        ensures
            r == *self,
    {
        let file_path = match &self.file_path {
            Some(p) => Some(p.clone()),
            None => None,
        };
        StateSnapshot {
            file_path,
            text: self.text.clone(),
            current_offset: self.current_offset,
            config: self.config.duplicate(),
        }
    }

    /// Opens a document: resumes at the remembered offset when `path` is the
    /// remembered file, else at the start; records the file and offset as the
    /// place to resume and resets the page.
    pub fn load_document(&mut self, path: String, text: String)
        requires
            old(self).inv(),
        ensures
            *final(self) == old(self).with_document(path, text),
            final(self).inv(),
    {
        let len = text.as_str().len();
        let same_file = match &self.config.last_file {
            Some(p) => *p == path,
            None => false,
        };
        let offset: usize = if same_file {
            if self.config.last_offset <= len {
                self.config.last_offset
            } else {
                len
            }
        } else {
            0
        };
        self.file_path = Some(path.clone());
        self.text = text;
        self.current_offset = offset;
        self.config.last_file = Some(path);
        self.config.last_offset = offset;
        self.config.last_page = 0;
    }

    /// Reopens the remembered document at start-up: the remembered offset,
    /// clamped to `text`, which the configuration then mirrors; the other
    /// configuration fields are left as they are.
    pub fn restore_document(&mut self, path: String, text: String)
        requires
            old(self).inv(),
        ensures
            final(self).file_path == Some(path),
            final(self).text == text,
            final(self).current_offset == min_nat(
                old(self).config.last_offset as nat,
                text_len(text@),
            ),
            final(self).config.last_offset == final(self).current_offset,
            final(self).config == (AppConfig {
                last_offset: final(self).current_offset,
                ..old(self).config
            }),
            final(self).inv(),
    {
        let len = text.as_str().len();
        let offset = if self.config.last_offset <= len {
            self.config.last_offset
        } else {
            len
        };
        self.file_path = Some(path);
        self.text = text;
        self.current_offset = offset;
        self.config.last_offset = offset;
    }

    /// Moves the read position, clamped to the end of the text, and mirrors
    /// it into the configuration.
    pub fn set_progress(&mut self, offset: usize)
        requires
            old(self).inv(),
        ensures
            *final(self) == old(self).with_progress(offset),
            final(self).current_offset == min_nat(offset as nat, text_len(old(self).text@)),
            final(self).config.last_offset == final(self).current_offset,
            final(self).inv(),
    {
        let len = self.text_len();
        let stored = if offset <= len {
            offset
        } else {
            len
        };
        self.current_offset = stored;
        self.config.last_offset = stored;
    }

    /// Takes every user-facing setting from `settings`, keeping the
    /// session-resume fields; returns whether developer mode changed.
    pub fn apply_settings(&mut self, settings: AppConfig) -> (changed: bool)
        requires
            old(self).inv(),
        ensures
            changed == (old(self).config.system.dev_mode != settings.system.dev_mode),
            *final(self) == old(self).with_settings(settings),
            final(self).inv(),
    {
        let changed = self.config.system.dev_mode != settings.system.dev_mode;
        self.config.boss_key = settings.boss_key;
        self.config.max_chars_per_page = settings.max_chars_per_page;
        self.config.appearance = settings.appearance;
        self.config.reading = settings.reading;
        self.config.privacy = settings.privacy;
        self.config.keybindings = settings.keybindings;
        self.config.system = settings.system;
        changed
    }

    /// Puts every setting back to its default, keeping the open document and
    /// the session-resume fields.
    pub fn reset_settings(&mut self)
        requires
            old(self).inv(),
        ensures
            final(self).is_reset_of(*old(self)),
            final(self).inv(),
    {
        let defaults = AppConfig::default();
        let last_file = self.config.last_file.take();
        self.config = AppConfig {
            last_file,
            last_page: self.config.last_page,
            last_offset: self.config.last_offset,
            ..defaults
        };
    }
}

/// Reopening the file that is open resumes where the reader left off: the
/// position recorded is the reported one clamped to the first content, and
/// the second load starts there, clamped to the second content.
pub proof fn lemma_reload_resumes(
    s: StateSnapshot,
    path: String,
    first: String,
    offset: usize,
    second: String,
)
    requires
        s.inv(),
    ensures
        ({
            let reading = s.with_document(path, first).with_progress(offset);
            &&& reading.config.last_offset == min_nat(offset as nat, text_len(first@))
            &&& reading.with_document(path, second).current_offset == min_nat(
                reading.config.last_offset as nat,
                text_len(second@),
            )
        }),
{
}

/// Opening a file other than the one remembered starts at offset 0.
pub proof fn lemma_other_file_starts_over(
    s: StateSnapshot,
    first_path: String,
    first: String,
    offset: usize,
    second_path: String,
    second: String,
)
    requires
        s.inv(),
        first_path@ != second_path@,
    ensures
        s.with_document(first_path, first).with_progress(offset).with_document(
            second_path,
            second,
        ).current_offset == 0,
{
}

/// The lock's invariant: every snapshot stored in it is well formed.
pub struct SnapshotInv;

impl RwLockPredicate<StateSnapshot> for SnapshotInv {
    open spec fn inv(self, v: StateSnapshot) -> bool {
        v.inv()
    }
}

/// The shared session store: readers run together, writers alone.
pub struct AppState {
    inner: RwLock<StateSnapshot, SnapshotInv>,
    config_path: String,
}

impl AppState {
    pub closed spec fn lock(&self) -> RwLock<StateSnapshot, SnapshotInv> {
        self.inner
    }

    pub closed spec fn spec_config_path(&self) -> Seq<char> {
        self.config_path@
    }

    /// A store with no document open, around the configuration loaded from
    /// `config_path`.
    pub fn new(config_path: String, config: AppConfig) -> (r: Self)
        ensures
            r.spec_config_path() == config_path@,
    {
        let snapshot = StateSnapshot::new(config);
        AppState { inner: RwLock::new(snapshot, Ghost(SnapshotInv)), config_path }
    }

    /// Where the configuration is persisted.
    pub fn config_path(&self) -> (r: &String)
        ensures
            r@ == self.spec_config_path(),
    {
        &self.config_path
    }

    /// Takes the shared lock. The caller releases it with `release_read`.
    pub fn read(&self) -> (r: ReadHandle<'_, StateSnapshot, SnapshotInv>)
        ensures
            r.rwlock() == self.lock(),
            r.view().inv(),
    {
        self.inner.acquire_read()
    }

    /// Takes the exclusive lock, handing out the current snapshot. The caller
    /// puts a well-formed snapshot back with `release_write`.
    pub fn write(&self) -> (r: (StateSnapshot, WriteHandle<'_, StateSnapshot, SnapshotInv>))
        ensures
            r.1.rwlock() == self.lock(),
            r.0.inv(),
    {
        self.inner.acquire_write()
    }

    /// A consistent copy of the whole session.
    pub fn snapshot(&self) -> (r: StateSnapshot)
        ensures
            r.inv(),
    {
        let handle = self.read();
        let copy = handle.borrow().duplicate();
        handle.release_read();
        copy
    }

    /// Applies `mutator` to the configuration under the exclusive lock and
    /// returns the configuration as written.
    pub fn update_config<F>(&self, mutator: F) -> (r: AppConfig)
        where
            F: FnOnce(AppConfig) -> AppConfig,
        requires
            forall|c: AppConfig| mutator.requires((c,)),
        ensures
            exists|prev: AppConfig| mutator.ensures((prev,), r),
    {
        let (mut snapshot, handle) = self.write();
        let config = snapshot.config;
        let prev = Ghost(config);
        let updated = mutator(config);
        let written = updated.duplicate();
        snapshot.config = updated;
        handle.release_write(snapshot);
        assert(mutator.ensures((prev@,), written));
        written
    }
}

impl Clone for AppState {
    /// An independent store holding a copy of the current session.
    fn clone(&self) -> (r: Self)
        ensures
            r.spec_config_path() == self.spec_config_path(),
    {
        let snapshot = self.snapshot();
        AppState {
            inner: RwLock::new(snapshot, Ghost(SnapshotInv)),
            config_path: self.config_path.clone(),
        }
    }
}

} // verus!
