//! The decisions behind the commands the settings window can call: what the
//! model list and the readiness check show, when a download or a deletion is
//! refused, and when the model cache has to go.
use vstd::prelude::*;
use crate::config::Config;
use crate::error::{error_message, SpielError};
use crate::model::{registry, registry_spec, status_label, InstallInfo, InstallStatus, ModelSpec};
use crate::state::DownloadState;
use crate::text::{ends_with, ends_with_chars, chars_of, owned, str_eq};

verus! {

/// One row of the model list.
#[derive(Debug, Clone)]
pub struct ModelView {
    pub id: String,
    pub label: String,
    pub approx_mb: u32,
    pub note: String,
    pub installed: bool,
    pub install_status: String,
    pub install_bytes: u64,
    pub install_modified_ms: Option<u64>,
    pub install_reason: String,
    pub is_current: bool,
}

/// Progress of a model download, as the frontend is told.
#[derive(Debug, Clone)]
pub struct ModelProgress {
    pub model_id: String,
    pub downloaded: u64,
    pub total: Option<u64>,
}

/// The end of a model download, as the frontend is told.
#[derive(Debug, Clone)]
pub struct ModelDone {
    pub model_id: String,
    pub ok: bool,
    pub error: Option<String>,
}

/// Whether the app is ready to dictate.
#[derive(Debug, Clone)]
pub struct ReadinessSnapshot {
    pub model_dir: String,
    pub model_dir_writable: bool,
    pub current_model: String,
    pub current_model_installed: bool,
    pub model_store_bytes: u64,
    pub model_store_file_count: usize,
    pub hotkey_valid: bool,
    pub accessibility_supported: bool,
    pub accessibility_trusted: bool,
    pub active_download: bool,
}

/// The row for model `m` with install state `i`, `current` being the model in use.
pub open spec fn describes_model(v: ModelView, m: ModelSpec, i: InstallInfo, current: Seq<char>) -> bool {
    &&& v.id@ == m.id@
    &&& v.label@ == m.label@
    &&& v.approx_mb == m.approx_mb
    &&& v.note@ == m.note@
    &&& v.installed == (i.status == InstallStatus::Installed)
    &&& v.install_status@ == status_label(i.status)
    &&& v.install_bytes == i.bytes
    &&& v.install_modified_ms == i.modified_ms
    &&& v.install_reason@ == i.reason@
    &&& v.is_current == (m.id@ == current)
}

pub fn model_view(m: &ModelSpec, install: &InstallInfo, current: &str) -> (r: ModelView)
    ensures
        describes_model(r, *m, *install, current@),
{
    ModelView {
        id: owned(m.id),
        label: owned(m.label),
        approx_mb: m.approx_mb,
        note: owned(m.note),
        installed: install.is_installed(),
        install_status: owned(install.as_label()),
        install_bytes: install.bytes,
        install_modified_ms: install.modified_ms,
        install_reason: install.reason.clone(),
        is_current: str_eq(m.id, current),
    }
}

/// The model list: one row per registry entry, in order, given each entry's
/// install state.
pub fn list_model_views(installs: &Vec<InstallInfo>, current: &str) -> (r: Vec<ModelView>)
    requires
        installs@.len() == registry_spec().len(),
    ensures
        r@.len() == registry_spec().len(),
        forall|i: int|
            0 <= i < r@.len() ==> describes_model(
                #[trigger] r@[i],
                registry_spec()[i],
                installs@[i],
                current@,
            ),
{
    let models = registry();
    let mut out: Vec<ModelView> = Vec::new();
    let mut i: usize = 0;
    while i < models.len()
        invariant
            i <= models.len(),
            models@ == registry_spec(),
            installs@.len() == registry_spec().len(),
            out@.len() == i,
            forall|j: int|
                0 <= j < i ==> describes_model(
                    #[trigger] out@[j],
                    registry_spec()[j],
                    installs@[j],
                    current@,
                ),
        decreases models.len() - i,
    {
        out.push(model_view(&models[i], &installs[i], current));
        i += 1;
    }
    out
}

/// The readiness snapshot from what the caller measured.
pub fn readiness_snapshot(
    model_dir: String,
    model_dir_writable: bool,
    current_model: String,
    current_model_installed: bool,
    model_store_bytes: u64,
    model_store_file_count: usize,
    hotkey_valid: bool,
    accessibility_supported: bool,
    accessibility_trusted: bool,
    download: &DownloadState,
) -> (r: ReadinessSnapshot)
    ensures
        r.model_dir == model_dir,
        r.model_dir_writable == model_dir_writable,
        r.current_model == current_model,
        r.current_model_installed == current_model_installed,
        r.model_store_bytes == model_store_bytes,
        r.model_store_file_count == model_store_file_count,
        r.hotkey_valid == hotkey_valid,
        r.accessibility_supported == accessibility_supported,
        r.accessibility_trusted == (accessibility_supported && accessibility_trusted),
        r.active_download == download.active,
{
    ReadinessSnapshot {
        model_dir,
        model_dir_writable,
        current_model,
        current_model_installed,
        model_store_bytes,
        model_store_file_count,
        hotkey_valid,
        accessibility_supported,
        accessibility_trusted: accessibility_supported && accessibility_trusted,
        active_download: download.active,
    }
}

/// Whether a directory entry counts toward the model store: a regular file
/// (not a symlink) named `*.bin` or `*.part`.
pub open spec fn store_file(name: Seq<char>, is_symlink: bool, is_file: bool) -> bool {
    (ends_with(name, ".bin"@) || ends_with(name, ".part"@)) && !is_symlink && is_file
}

pub fn is_store_file(name: &str, is_symlink: bool, is_file: bool) -> (r: bool)
    ensures
        r == store_file(name@, is_symlink, is_file),
{
    let v = chars_of(name);
    (ends_with_chars(&v, &chars_of(".bin")) || ends_with_chars(&v, &chars_of(".part"))) && !is_symlink
        && is_file
}

/// Running totals of the model store, saturating.
#[derive(Debug, Clone, Copy)]
pub struct StoreSummary {
    pub total_bytes: u64,
    pub file_count: usize,
}

impl StoreSummary {
    pub fn new() -> (r: Self)
        ensures
            r.total_bytes == 0,
            r.file_count == 0,
    {
        StoreSummary { total_bytes: 0, file_count: 0 }
    }

    /// Count one more store file of `len` bytes.
    pub fn add(&mut self, len: u64)
        ensures
            final(self).total_bytes == if old(self).total_bytes + len > u64::MAX {
                u64::MAX as int
            } else {
                old(self).total_bytes + len
            },
            final(self).file_count == if old(self).file_count + 1 > usize::MAX {
                usize::MAX as int
            } else {
                old(self).file_count + 1
            },
    {
        self.total_bytes = self.total_bytes.saturating_add(len);
        self.file_count = self.file_count.saturating_add(1);
    }
}

/// Whether saving `new` over a config with `old_model` and `old_keep_loaded`
/// drops the cached model: a different model, or keeping it loaded was just
/// switched off.
pub open spec fn model_cache_stale(old_model: Seq<char>, old_keep_loaded: bool, new: Config) -> bool {
    new.model@ != old_model || (old_keep_loaded && !new.keep_model_loaded)
}

pub fn needs_model_cache_reset(old_model: &str, old_keep_loaded: bool, new: &Config) -> (r: bool)
    ensures
        r == model_cache_stale(old_model@, old_keep_loaded, *new),
{
    !str_eq(new.model.as_str(), old_model) || (old_keep_loaded && !new.keep_model_loaded)
}

pub open spec fn unknown_model_message(id: Seq<char>) -> Seq<char> {
    "Unknown model '"@ + id + "'."@
}

/// Why a download of `model_id` is refused before the slot is claimed: an
/// unknown model, or one that is already installed.
pub open spec fn download_refusal(id: Seq<char>, known: bool, installed: bool) -> Option<Seq<char>> {
    if !known {
        Some(unknown_model_message(id))
    } else if installed {
        Some("Model '"@ + id + "' is already installed."@)
    } else {
        None
    }
}

pub fn check_download(model_id: &str, known: bool, installed: bool) -> (r: Result<(), String>)
    ensures
        match download_refusal(model_id@, known, installed) {
            Some(m) => r matches Err(e) && e@ == m,
            None => r is Ok,
        },
{
    if !known {
        return Err(String::from_str("Unknown model '").concat(model_id).concat("'."));
    }
    if installed {
        return Err(String::from_str("Model '").concat(model_id).concat("' is already installed."));
    }
    Ok(())
}

/// Whether a progress event is sent: when the download is complete, or at
/// least 120 ms after the last one.
pub open spec fn progress_due(downloaded: u64, total: Option<u64>, since_last_ms: u64) -> bool {
    (total matches Some(t) && downloaded >= t) || since_last_ms >= 120
}

pub fn should_emit_progress(downloaded: u64, total: Option<u64>, since_last_ms: u64) -> (r: bool)
    ensures
        r == progress_due(downloaded, total, since_last_ms),
{
    let done = match total {
        Some(t) => downloaded >= t,
        None => false,
    };
    done || since_last_ms >= 120
}

pub fn model_progress(model_id: &str, downloaded: u64, total: Option<u64>) -> (r: ModelProgress)
    ensures
        r.model_id@ == model_id@,
        r.downloaded == downloaded,
        r.total == total,
{
    ModelProgress { model_id: owned(model_id), downloaded, total }
}

/// The completion event for a download of `model_id` that ended with `result`.
pub fn model_done(model_id: &str, result: &Result<(), SpielError>) -> (r: ModelDone)
    ensures
        r.model_id@ == model_id@,
        r.ok == (result is Ok),
        match result {
            Ok(()) => r.error is None,
            Err(e) => r.error matches Some(m) && m@ == error_message(*e),
        },
{
    match result {
        Ok(()) => ModelDone { model_id: owned(model_id), ok: true, error: None },
        Err(e) => ModelDone { model_id: owned(model_id), ok: false, error: Some(e.message()) },
    }
}

/// After a download: the cached model is dropped when the model in use was
/// downloaded successfully.
pub fn clears_cache_after_download(current_model: &str, model_id: &str, ok: bool) -> (r: bool)
    ensures
        r == (current_model@ == model_id@ && ok),
{
    str_eq(current_model, model_id) && ok
}

/// Why deleting `model_id` is refused: an unknown model, one being
/// downloaded, one that is not installed, or the model in use.
pub open spec fn delete_refusal(
    id: Seq<char>,
    known: bool,
    downloading: bool,
    file_exists: bool,
    current_model: Seq<char>,
) -> Option<Seq<char>> {
    if !known {
        Some(unknown_model_message(id))
    } else if downloading {
        Some("Cannot delete a model while it is downloading."@)
    } else if !file_exists {
        Some("Model '"@ + id + "' is not installed."@)
    } else if current_model == id {
        Some("Cannot delete the active model directly. Switch models first."@)
    } else {
        None
    }
}

pub fn check_delete(
    model_id: &str,
    known: bool,
    download: &DownloadState,
    file_exists: bool,
    current_model: &str,
) -> (r: Result<(), String>)
    ensures
        match delete_refusal(
            model_id@,
            known,
            download.active && (download.model_id matches Some(m) && m@ == model_id@),
            file_exists,
            current_model@,
        ) {
            Some(m) => r matches Err(e) && e@ == m,
            None => r is Ok,
        },
{
    if !known {
        return Err(String::from_str("Unknown model '").concat(model_id).concat("'."));
    }
    if download.is_downloading(model_id) {
        return Err(owned("Cannot delete a model while it is downloading."));
    }
    if !file_exists {
        return Err(String::from_str("Model '").concat(model_id).concat("' is not installed."));
    }
    if str_eq(current_model, model_id) {
        return Err(owned("Cannot delete the active model directly. Switch models first."));
    }
    Ok(())
}

/// The message when removing the model file failed.
pub fn remove_failed_message(model_id: &str, error: &str) -> (r: String)
    ensures
        r@ == "Failed to remove '"@ + model_id@ + "': "@ + error@,
{
    String::from_str("Failed to remove '").concat(model_id).concat("': ").concat(error)
}

} // verus!
