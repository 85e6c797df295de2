//! The request handlers' logic: what each command reads or changes in the
//! shared session, and what it hands back. Reading files and persisting the
//! configuration are left to the caller.
use vstd::prelude::*;

use crate::app_state::{min_nat, text_len, AppState, StateSnapshot};
use crate::settings::AppConfig;

verus! {

/// The open document as handed to the interface.
pub struct DocumentPayload {
    pub file_path: Option<String>,
    pub content: String,
    pub offset: usize,
}

/// The settings the interface needs before the full tree is loaded.
pub struct SettingsPayload {
    pub boss_key: String,
}

/// The message for a session with no document open.
pub const NO_DOCUMENT_MESSAGE: &'static str = "尚未加载任何文件";

impl DocumentPayload {
    pub open spec fn describes(&self, snapshot: StateSnapshot) -> bool {
        &&& self.file_path == snapshot.file_path
        &&& self.content == snapshot.text
        &&& self.offset == snapshot.current_offset
    }
}

/// The document part of a snapshot.
pub fn snapshot_to_payload(snapshot: &StateSnapshot) -> (r: DocumentPayload)
    ensures
        r.describes(*snapshot),
{
    let file_path = match &snapshot.file_path {
        Some(p) => Some(p.clone()),
        None => None,
    };
    DocumentPayload { file_path, content: snapshot.text.clone(), offset: snapshot.current_offset }
}

/// The open document, or an error when nothing has been loaded (the text is
/// empty).
pub fn current_document_payload(snapshot: &StateSnapshot) -> (r: Result<DocumentPayload, String>)
    ensures
        snapshot.text@.len() == 0 <==> r is Err,
        r is Err ==> r->Err_0@ == NO_DOCUMENT_MESSAGE@,
        r is Ok ==> r->Ok_0.describes(*snapshot),
{
    if snapshot.text.as_str().is_empty() {
        Err(String::from_str(NO_DOCUMENT_MESSAGE))
    } else {
        Ok(snapshot_to_payload(snapshot))
    }
}

/// The boss key from a snapshot.
pub fn settings_payload(snapshot: &StateSnapshot) -> (r: SettingsPayload)
    ensures
        r.boss_key == snapshot.config.boss_key,
{
    SettingsPayload { boss_key: snapshot.config.boss_key.clone() }
}

/// Installs a decoded document in the session under the exclusive lock and
/// returns it as the session now holds it.
pub fn load_document_internal(state: &AppState, path_buf: String, text: String) -> (r:
    DocumentPayload)
    ensures
        exists|prev: StateSnapshot| prev.inv() && r.describes(prev.with_document(path_buf, text)),
{
    let (mut snapshot, handle) = state.write();
    let prev = Ghost(snapshot);
    snapshot.load_document(path_buf, text);
    let payload = snapshot_to_payload(&snapshot);
    handle.release_write(snapshot);
    assert(prev@.inv() && payload.describes(prev@.with_document(path_buf, text)));
    payload
}

/// Records the read position under the exclusive lock; returns the offset
/// stored, which is `offset` clamped to the document's length.
pub fn update_progress_internal(state: &AppState, offset: usize) -> (r: usize)
    ensures
        exists|prev: StateSnapshot|
            prev.inv() && r == prev.with_progress(offset).current_offset && r == min_nat(
                offset as nat,
                text_len(prev.text@),
            ),
{
    let (mut snapshot, handle) = state.write();
    let prev = Ghost(snapshot);
    snapshot.set_progress(offset);
    let stored = snapshot.current_offset;
    handle.release_write(snapshot);
    assert(prev@.inv() && stored == prev@.with_progress(offset).current_offset);
    stored
}

/// Replaces every user-facing setting under the exclusive lock, keeping the
/// session-resume fields; returns whether developer mode changed.
pub fn update_settings_internal(state: &AppState, settings: AppConfig) -> (r: bool)
    ensures
        exists|prev: StateSnapshot|
            prev.inv() && r == (prev.config.system.dev_mode != settings.system.dev_mode),
{
    let (mut snapshot, handle) = state.write();
    let prev = Ghost(snapshot);
    let changed = snapshot.apply_settings(settings);
    handle.release_write(snapshot);
    assert(prev@.inv() && changed == (prev@.config.system.dev_mode != settings.system.dev_mode));
    changed
}

/// Puts every setting back to its default under the exclusive lock, keeping
/// the open document and the session-resume fields; returns the
/// configuration as written.
pub fn reset_settings_internal(state: &AppState) -> (r: AppConfig)
    ensures
        r.settings_are_default(),
        exists|prev: StateSnapshot| prev.inv() && r.same_resume_state(&prev.config),
{
    let (mut snapshot, handle) = state.write();
    let prev = Ghost(snapshot);
    snapshot.reset_settings();
    let written = snapshot.config.duplicate();
    handle.release_write(snapshot);
    assert(prev@.inv() && written.same_resume_state(&prev@.config));
    written
}

/// Start-up with the remembered document still on disk: installs its
/// decoded text at the remembered offset, clamped.
pub fn restore_document_internal(state: &AppState, path_buf: String, text: String) -> (r:
    DocumentPayload)
    ensures
        r.file_path == Some(path_buf),
        r.content == text,
        exists|prev: StateSnapshot|
            prev.inv() && r.offset == min_nat(prev.config.last_offset as nat, text_len(text@)),
{
    let (mut snapshot, handle) = state.write();
    let prev = Ghost(snapshot);
    snapshot.restore_document(path_buf, text);
    let payload = snapshot_to_payload(&snapshot);
    handle.release_write(snapshot);
    assert(prev@.inv() && payload.offset == min_nat(
        prev@.config.last_offset as nat,
        text_len(text@),
    ));
    payload
}

/// Start-up with the remembered document gone: clears the session-resume
/// fields (file, page and offset);
/// returns the configuration as written.
pub fn forget_last_file(state: &AppState) -> (r: AppConfig)
    ensures
        r.last_file is None,
        r.last_offset == 0,
        r.last_page == 0,
{
    state.update_config(without_last_file)
}

/// `config` with its session-resume fields cleared: no remembered
/// document, page 0 and offset 0.
pub fn without_last_file(config: AppConfig) -> (r: AppConfig)
    ensures
        r.last_file is None,
        r.last_offset == 0,
        r.last_page == 0,
        config.same_settings(&r),
{
    AppConfig { last_file: None, last_page: 0, last_offset: 0, ..config }
}

/// A hotkey with no binding: empty, or the word `None`.
pub open spec fn is_unset_shortcut(shortcut: Seq<char>) -> bool {
    shortcut.len() == 0 || shortcut == "None"@
}

/// `(shortcut, action)` as a one-element list when the shortcut is bound,
/// as an empty list otherwise.
pub open spec fn binding_if_set(shortcut: Seq<char>, action: Seq<char>) -> Seq<
    (Seq<char>, Seq<char>),
> {
    if is_unset_shortcut(shortcut) {
        Seq::empty()
    } else {
        seq![(shortcut, action)]
    }
}

/// The global hotkeys to register for a configuration, in order: boss key,
/// previous page, next page, search, each with the event suffix it fires,
/// leaving out the unbound ones.
pub open spec fn shortcut_plan(config: AppConfig) -> Seq<(Seq<char>, Seq<char>)> {
    binding_if_set(config.boss_key@, "boss-key"@) + binding_if_set(
        config.keybindings.prev_page@,
        "prev-page"@,
    ) + binding_if_set(config.keybindings.next_page@, "next-page"@) + binding_if_set(
        config.keybindings.search@,
        "search"@,
    )
}

pub open spec fn bindings_view(v: Seq<(String, String)>) -> Seq<(Seq<char>, Seq<char>)> {
    v.map_values(|p: (String, String)| (p.0@, p.1@))
}

/// Whether a hotkey string means "no binding".
pub fn is_unset(shortcut: &String) -> (r: bool)
    ensures
        r == is_unset_shortcut(shortcut@),
{
    let none = String::from_str("None");
    shortcut.as_str().is_empty() || *shortcut == none
}

fn push_if_set(list: &mut Vec<(String, String)>, shortcut: &String, action: &str)
    ensures
        bindings_view(final(list)@) == bindings_view(old(list)@) + binding_if_set(
            shortcut@,
            action@,
        ),
{
    if !is_unset(shortcut) {
        list.push((shortcut.clone(), String::from_str(action)));
        assert(bindings_view(final(list)@) =~= bindings_view(old(list)@) + seq![
            (shortcut@, action@),
        ]);
    } else {
        assert(bindings_view(final(list)@) =~= bindings_view(old(list)@) + Seq::empty());
    }
}

/// The hotkeys to register, as `(shortcut, action)` pairs.
pub fn shortcut_bindings(config: &AppConfig) -> (r: Vec<(String, String)>)
    ensures
        bindings_view(r@) == shortcut_plan(*config),
{
    let mut list: Vec<(String, String)> = Vec::new();
    assert(bindings_view(list@) =~= Seq::empty());
    push_if_set(&mut list, &config.boss_key, "boss-key");
    push_if_set(&mut list, &config.keybindings.prev_page, "prev-page");
    push_if_set(&mut list, &config.keybindings.next_page, "next-page");
    push_if_set(&mut list, &config.keybindings.search, "search");
    assert(bindings_view(list@) =~= shortcut_plan(*config));
    list
}

} // verus!
