//! The decisions of the extraction fallback chain. Retrieval, shortcut
//! resolution and the icon store are the caller's; every decision between two
//! of their steps, and every change of the cache, is made here.

use crate::cache::{CacheView, DescriptorView, IconCache, IconDescriptor};
use crate::error::{cause_of, IconError, ResolutionCause};
use crate::request::{
    kind_of, AppUserModelId, FileRequest, RequestView, SourceKind, MAX_ALIAS_DEPTH,
};
use vstd::prelude::*;

verus! {

/// What the caller does next for a file.
#[derive(Clone, Copy, Debug, PartialEq, Eq, Structural)]
pub enum FileAction {
    /// Nothing: there is no icon to record, or one is recorded already.
    Done,
    /// Copy the placeholder asset into the store, then record it.
    CopyPlaceholder,
    /// Ask the platform's icon provider for the file's icon.
    Retrieve,
}

/// What the caller does next for an application identity.
#[derive(Clone, Copy, Debug, PartialEq, Eq, Structural)]
pub enum IdentityAction {
    /// Nothing: an icon is recorded already.
    Done,
    /// Copy the light and the dark asset of the package into the store.
    CopyThemeIcons,
    /// Look the identity up in the shortcut index and extract that shortcut.
    FindShortcut,
}

/// The first decision for a file: fail if it is no file, do nothing if it has
/// no extension or its icon is recorded, else name the retrieval.
pub open spec fn plan(cache: CacheView, request: RequestView, is_file: bool) -> Result<
    FileAction,
    IconError,
> {
    if !is_file {
        Err(IconError::NotFound)
    } else {
        match kind_of(request.extension) {
            SourceKind::NoExtension => Ok(FileAction::Done),
            SourceKind::Executable | SourceKind::Shortcut => if cache.apps.dom().contains(
                request.key,
            ) {
                Ok(FileAction::Done)
            } else {
                Ok(FileAction::Retrieve)
            },
            SourceKind::Url => if cache.files.dom().contains("url"@) {
                Ok(FileAction::Done)
            } else {
                Ok(FileAction::CopyPlaceholder)
            },
            SourceKind::Generic => if cache.files.dom().contains(request.extension.unwrap()) {
                Ok(FileAction::Done)
            } else {
                Ok(FileAction::Retrieve)
            },
        }
    }
}

/// The cache once the placeholder, stored as `filename`, is recorded for
/// `.url` files.
pub open spec fn placeholder_recorded(cache: CacheView, filename: Seq<char>) -> CacheView {
    CacheView {
        apps: cache.apps,
        files: cache.files.insert("url"@, DescriptorView::Static(filename)),
    }
}

/// The cache once the retrieved icon of `request`, stored as `filename`, is
/// recorded: by path for executables and shortcuts, by extension otherwise.
pub open spec fn recorded(cache: CacheView, request: RequestView, filename: Seq<char>) -> CacheView {
    match kind_of(request.extension) {
        SourceKind::NoExtension => cache,
        SourceKind::Executable | SourceKind::Shortcut => CacheView {
            apps: cache.apps.insert(request.key, DescriptorView::Static(filename)),
            files: cache.files,
        },
        _ => CacheView {
            apps: cache.apps,
            files: cache.files.insert(request.extension.unwrap(), DescriptorView::Static(filename)),
        },
    }
}

/// What a retrieval that failed with `error` leads to: a shortcut falls back
/// on its target, as long as the chain is short enough; for any other file
/// the failure stands.
pub open spec fn fallback(request: RequestView, error: IconError) -> Result<(), IconError> {
    if kind_of(request.extension) == SourceKind::Shortcut {
        if request.depth < MAX_ALIAS_DEPTH {
            Ok(())
        } else {
            Err(IconError::Resolution(ResolutionCause::TooDeep))
        }
    } else {
        Err(error)
    }
}

/// The descriptor that the cache holds for a file: by path for executables
/// and shortcuts, by extension for `.url` and other files, none for a file
/// without extension.
pub open spec fn recorded_descriptor(cache: CacheView, request: RequestView) -> Option<
    DescriptorView,
> {
    match kind_of(request.extension) {
        SourceKind::NoExtension => None,
        SourceKind::Executable | SourceKind::Shortcut => if cache.apps.dom().contains(
            request.key,
        ) {
            Some(cache.apps[request.key])
        } else {
            None
        },
        SourceKind::Url => if cache.files.dom().contains("url"@) {
            Some(cache.files["url"@])
        } else {
            None
        },
        SourceKind::Generic => if cache.files.dom().contains(request.extension.unwrap()) {
            Some(cache.files[request.extension.unwrap()])
        } else {
            None
        },
    }
}

/// How an alias ends, given its target and how the target's own extraction
/// ended, or that no target was found. It succeeds when the target's
/// extraction did and the cache holds a descriptor for the target, by path
/// or by extension.
pub open spec fn alias_outcome(
    cache: CacheView,
    target: Option<(RequestView, Result<(), IconError>)>,
) -> Result<(), IconError> {
    match target {
        None => Err(IconError::Resolution(ResolutionCause::NoTarget)),
        Some((target_request, extraction)) => match extraction {
            Err(e) => Err(IconError::Resolution(cause_of(e))),
            Ok(_) => if recorded_descriptor(cache, target_request).is_some() {
                Ok(())
            } else {
                Err(IconError::Resolution(ResolutionCause::TargetNotCached))
            },
        },
    }
}

/// The cache after an alias ended: on success `key` has the descriptor of
/// the target, else nothing has changed.
pub open spec fn aliased(
    cache: CacheView,
    key: Seq<char>,
    target: Option<(RequestView, Result<(), IconError>)>,
) -> CacheView {
    if alias_outcome(cache, target).is_ok() {
        CacheView {
            apps: cache.apps.insert(key, recorded_descriptor(cache, target.unwrap().0).unwrap()),
            files: cache.files,
        }
    } else {
        cache
    }
}

/// A target and the outcome of its extraction, with the target as plain text.
pub open spec fn target_view(target: Option<(&FileRequest, Result<(), IconError>)>) -> Option<
    (RequestView, Result<(), IconError>),
> {
    match target {
        Some((request, extraction)) => Some((request@, extraction)),
        None => None,
    }
}

/// What happened since the last step of a file's extraction.
#[derive(Debug)]
pub enum FileEvent {
    /// The icon was asked for; `is_file` says whether the path names an
    /// existing file that is no directory.
    Requested { is_file: bool },
    /// The placeholder asset was copied into the store as `filename`.
    PlaceholderCopied { filename: String },
    /// The retrieved icon was normalised and stored as `filename`.
    IconSaved { filename: String },
    /// The retrieval, or the normalising of what it gave, failed.
    RetrievalFailed { error: IconError },
    /// The shortcut's target was looked for: the request made for it and how
    /// its extraction ended, or nothing if the shortcut has no target.
    TargetExtracted { target: Option<(FileRequest, Result<(), IconError>)> },
    /// An asset could not be written, or the cache could not be flushed.
    StorageFailed,
    /// The cache was flushed to the store.
    Flushed,
}

/// What the caller does next in a file's extraction.
#[derive(Clone, Copy, Debug, PartialEq, Eq, Structural)]
pub enum FileStep {
    /// Copy the placeholder asset into the store; then report
    /// `PlaceholderCopied`.
    CopyPlaceholder,
    /// Ask the platform's icon provider, normalise and store what it gives;
    /// then report `IconSaved` or `RetrievalFailed`.
    Retrieve,
    /// Resolve the shortcut's target and extract its icon; then report
    /// `TargetExtracted`.
    ResolveTarget,
    /// Flush the cache to the store; then report `Flushed`.
    Flush,
    /// The extraction is over: an icon is recorded, or the file has none to
    /// record.
    Done,
    /// The extraction is over and has failed.
    Failed(IconError),
}

/// What happened since the last step of an identity's extraction.
#[derive(Debug)]
pub enum IdentityEvent {
    /// The icon was asked for.
    Requested,
    /// The package's theme assets were copied into the store.
    ThemeIconsCopied { light: String, dark: String },
    /// The package has no theme assets.
    ThemeIconsMissing,
    /// The identity's shortcut was looked for: the request made for it and
    /// how its extraction ended, or nothing if no shortcut carries the
    /// identity.
    ShortcutExtracted { shortcut: Option<(FileRequest, Result<(), IconError>)> },
    /// An asset could not be written, or the cache could not be flushed.
    StorageFailed,
    /// The cache was flushed to the store.
    Flushed,
}

/// What the caller does next in an identity's extraction.
#[derive(Clone, Copy, Debug, PartialEq, Eq, Structural)]
pub enum IdentityStep {
    /// Copy the package's light and dark asset into the store; then report
    /// `ThemeIconsCopied` or `ThemeIconsMissing`.
    CopyThemeIcons,
    /// Look the identity up in the shortcut index and extract the shortcut's
    /// icon; then report `ShortcutExtracted`.
    FindShortcut,
    /// Flush the cache to the store; then report `Flushed`.
    Flush,
    /// The extraction is over: an icon is recorded.
    Done,
    /// The extraction is over and has failed.
    Failed(IconError),
}

/// A target and the outcome of its extraction, with the target as plain text.
pub open spec fn owned_target_view(
    target: Option<(FileRequest, Result<(), IconError>)>,
) -> Option<(RequestView, Result<(), IconError>)> {
    match target {
        Some((request, extraction)) => Some((request@, extraction)),
        None => None,
    }
}

/// The step of a file's extraction that answers `event`.
pub open spec fn file_step(cache: CacheView, request: RequestView, event: FileEvent) -> FileStep {
    match event {
        FileEvent::Requested { is_file } => match plan(cache, request, is_file) {
            Ok(FileAction::Done) => FileStep::Done,
            Ok(FileAction::CopyPlaceholder) => FileStep::CopyPlaceholder,
            Ok(FileAction::Retrieve) => FileStep::Retrieve,
            Err(e) => FileStep::Failed(e),
        },
        FileEvent::PlaceholderCopied { filename } => FileStep::Flush,
        FileEvent::IconSaved { filename } => FileStep::Flush,
        FileEvent::RetrievalFailed { error } => match fallback(request, error) {
            Ok(_) => FileStep::ResolveTarget,
            Err(e) => FileStep::Failed(e),
        },
        FileEvent::TargetExtracted { target } => match alias_outcome(
            cache,
            owned_target_view(target),
        ) {
            Ok(_) => FileStep::Flush,
            Err(e) => FileStep::Failed(e),
        },
        FileEvent::StorageFailed => FileStep::Failed(IconError::Io),
        FileEvent::Flushed => FileStep::Done,
    }
}

/// The cache after the step of a file's extraction that answers `event`.
pub open spec fn file_step_cache(
    cache: CacheView,
    request: RequestView,
    event: FileEvent,
) -> CacheView {
    match event {
        FileEvent::PlaceholderCopied { filename } => placeholder_recorded(cache, filename@),
        FileEvent::IconSaved { filename } => recorded(cache, request, filename@),
        FileEvent::TargetExtracted { target } => aliased(
            cache,
            request.key,
            owned_target_view(target),
        ),
        _ => cache,
    }
}

/// The step of an identity's extraction that answers `event`.
pub open spec fn identity_step(
    cache: CacheView,
    aumid: &AppUserModelId,
    event: IdentityEvent,
) -> IdentityStep {
    match event {
        IdentityEvent::Requested => match identity_plan(cache, aumid) {
            IdentityAction::Done => IdentityStep::Done,
            IdentityAction::CopyThemeIcons => IdentityStep::CopyThemeIcons,
            IdentityAction::FindShortcut => IdentityStep::FindShortcut,
        },
        IdentityEvent::ThemeIconsCopied { light, dark } => IdentityStep::Flush,
        IdentityEvent::ThemeIconsMissing => IdentityStep::Failed(IconError::NotFound),
        IdentityEvent::ShortcutExtracted { shortcut } => match alias_outcome(
            cache,
            owned_target_view(shortcut),
        ) {
            Ok(_) => IdentityStep::Flush,
            Err(e) => IdentityStep::Failed(e),
        },
        IdentityEvent::StorageFailed => IdentityStep::Failed(IconError::Io),
        IdentityEvent::Flushed => IdentityStep::Done,
    }
}

/// The cache after the step of an identity's extraction that answers
/// `event`.
pub open spec fn identity_step_cache(
    cache: CacheView,
    aumid: &AppUserModelId,
    event: IdentityEvent,
) -> CacheView {
    match event {
        IdentityEvent::ThemeIconsCopied { light, dark } => CacheView {
            apps: cache.apps.insert(aumid.key(), theme_descriptor(light@, dark@)),
            files: cache.files,
        },
        IdentityEvent::ShortcutExtracted { shortcut } => aliased(
            cache,
            aumid.key(),
            owned_target_view(shortcut),
        ),
        _ => cache,
    }
}

/// The first decision for an application identity.
pub open spec fn identity_plan(cache: CacheView, aumid: &AppUserModelId) -> IdentityAction {
    if cache.apps.dom().contains(aumid.key()) {
        IdentityAction::Done
    } else {
        match aumid {
            AppUserModelId::Appx(_) => IdentityAction::CopyThemeIcons,
            AppUserModelId::PropertyStore(_) => IdentityAction::FindShortcut,
        }
    }
}

/// The descriptor of a pair of theme assets without a mask.
pub open spec fn theme_descriptor(light: Seq<char>, dark: Seq<char>) -> DescriptorView {
    DescriptorView::Dynamic { light, dark, mask: None }
}

/// Decides what to do for a file whose icon is asked for. `is_file` says
/// whether the path names an existing file that is no directory. A recorded
/// icon ends the request at once; else the extension selects the retrieval.
pub fn plan_file_extraction(
    cache: &IconCache,
    request: &FileRequest,
    is_file: bool,
) -> (res: Result<FileAction, IconError>)
    requires
        cache.wf(),
    ensures
        res == plan(cache@, request@, is_file),
{
    if !is_file {
        return Err(IconError::NotFound);
    }
    let hit: bool = match request.kind() {
        SourceKind::NoExtension => {
            return Ok(FileAction::Done);
        },
        SourceKind::Executable | SourceKind::Shortcut => cache.get_app_icon(
            request.key.as_str(),
        ).is_some(),
        SourceKind::Url => cache.get_file_icon("url").is_some(),
        SourceKind::Generic => match &request.extension {
            Some(e) => cache.get_file_icon(e.as_str()).is_some(),
            None => false,
        },
    };
    if hit {
        Ok(FileAction::Done)
    } else if request.kind() == SourceKind::Url {
        Ok(FileAction::CopyPlaceholder)
    } else {
        Ok(FileAction::Retrieve)
    }
}

/// Records the placeholder asset, stored as `filename`, for all `.url` files.
pub fn record_placeholder(cache: &mut IconCache, filename: &str)
    requires
        old(cache).wf(),
    ensures
        final(cache).wf(),
        final(cache)@ == placeholder_recorded(old(cache)@, filename@),
{
    cache.add_system_file_icon("url", IconDescriptor::Static(filename.to_owned()));
}

/// Records the retrieved icon of a file, stored as `filename`.
pub fn record_icon(cache: &mut IconCache, request: &FileRequest, filename: &str)
    requires
        old(cache).wf(),
    ensures
        final(cache).wf(),
        final(cache)@ == recorded(old(cache)@, request@, filename@),
{
    let descriptor = IconDescriptor::Static(filename.to_owned());
    match request.kind() {
        SourceKind::NoExtension => {},
        SourceKind::Executable | SourceKind::Shortcut => {
            cache.add_system_app_icon(request.key.as_str(), descriptor);
        },
        _ => {
            match &request.extension {
                Some(e) => {
                    cache.add_system_file_icon(e.as_str(), descriptor);
                },
                None => {},
            }
        },
    }
}

/// Decides what follows a retrieval that failed with `error`: `Ok` asks for
/// the shortcut's target to be resolved and extracted.
pub fn after_failed_retrieval(request: &FileRequest, error: IconError) -> (res: Result<
    (),
    IconError,
>)
    ensures
        res == fallback(request@, error),
{
    if request.kind() == SourceKind::Shortcut {
        if request.depth < MAX_ALIAS_DEPTH {
            Ok(())
        } else {
            Err(IconError::Resolution(ResolutionCause::TooDeep))
        }
    } else {
        Err(error)
    }
}

/// The descriptor that the cache holds for a file, looked up where the
/// file's kind has it recorded.
pub fn recorded_icon<'a>(cache: &'a IconCache, request: &FileRequest) -> (found: Option<
    &'a IconDescriptor,
>)
    requires
        cache.wf(),
    ensures
        found.is_some() <==> recorded_descriptor(cache@, request@).is_some(),
        found.is_some() ==> found.unwrap()@ == recorded_descriptor(cache@, request@).unwrap(),
{
    match request.kind() {
        SourceKind::NoExtension => None,
        SourceKind::Executable | SourceKind::Shortcut => cache.get_app_icon(request.key.as_str()),
        SourceKind::Url => cache.get_file_icon("url"),
        SourceKind::Generic => match &request.extension {
            Some(e) => cache.get_file_icon(e.as_str()),
            None => None,
        },
    }
}

/// Ends an alias: `key` (a shortcut's path or an application identity) gets
/// a copy of the descriptor recorded for the target, if a target was found,
/// its extraction succeeded and the cache holds a descriptor for it, by path
/// or by extension. `target` holds the request made for the target and how
/// its extraction ended.
pub fn alias_app_icon(
    cache: &mut IconCache,
    key: &str,
    target: Option<(&FileRequest, Result<(), IconError>)>,
) -> (res: Result<(), IconError>)
    requires
        old(cache).wf(),
    ensures
        final(cache).wf(),
        res == alias_outcome(old(cache)@, target_view(target)),
        final(cache)@ == aliased(old(cache)@, key@, target_view(target)),
{
    let (target_request, extraction) = match target {
        Some(found) => found,
        None => {
            return Err(IconError::Resolution(ResolutionCause::NoTarget));
        },
    };
    match extraction {
        Err(e) => Err(IconError::Resolution(e.as_cause())),
        Ok(_) => {
            let copy: IconDescriptor = match recorded_icon(cache, target_request) {
                Some(descriptor) => descriptor.clone(),
                None => {
                    return Err(IconError::Resolution(ResolutionCause::TargetNotCached));
                },
            };
            cache.add_system_app_icon(key, copy);
            Ok(())
        },
    }
}

/// Decides what to do for an application identity whose icon is asked for.
pub fn plan_identity_extraction(cache: &IconCache, aumid: &AppUserModelId) -> (action:
    IdentityAction)
    requires
        cache.wf(),
    ensures
        action == identity_plan(cache@, aumid),
{
    if cache.get_app_icon(aumid.as_str()).is_some() {
        return IdentityAction::Done;
    }
    match aumid {
        AppUserModelId::Appx(_) => IdentityAction::CopyThemeIcons,
        AppUserModelId::PropertyStore(_) => IdentityAction::FindShortcut,
    }
}

/// Records the theme assets of a packaged application, stored as `light` and
/// `dark`.
pub fn record_theme_icons(cache: &mut IconCache, aumid: &AppUserModelId, light: &str, dark: &str)
    requires
        old(cache).wf(),
    ensures
        final(cache).wf(),
        final(cache)@.files == old(cache)@.files,
        final(cache)@.apps == old(cache)@.apps.insert(
            aumid.key(),
            theme_descriptor(light@, dark@),
        ),
{
    let descriptor = IconDescriptor::Dynamic {
        light: light.to_owned(),
        dark: dark.to_owned(),
        mask: None,
    };
    cache.add_system_app_icon(aumid.as_str(), descriptor);
}

fn borrowed_target(target: &Option<(FileRequest, Result<(), IconError>)>) -> (borrowed: Option<
    (&FileRequest, Result<(), IconError>),
>)
    ensures
        target_view(borrowed) == owned_target_view(*target),
{
    match target {
        Some((request, extraction)) => Some((request, *extraction)),
        None => None,
    }
}

/// One step of the extraction of a file's icon: takes what happened, changes
/// the cache if an icon is to be recorded, and says what to do next. The
/// caller starts with `Requested`, does what each step asks for, reports it,
/// and stops at `Done` or `Failed`. A recorded icon finishes the request at once, with
/// no retrieval; every change of the cache is followed by `Flush`, so that
/// success after a change is reported only once the store holds it; a
/// failure leaves the cache as it was.
pub fn extract_and_save_icon_from_file(
    cache: &mut IconCache,
    request: &FileRequest,
    event: FileEvent,
) -> (step: FileStep)
    requires
        old(cache).wf(),
    ensures
        final(cache).wf(),
        step == file_step(old(cache)@, request@, event),
        final(cache)@ == file_step_cache(old(cache)@, request@, event),
{
    match event {
        FileEvent::Requested { is_file } => match plan_file_extraction(cache, request, is_file) {
            Ok(FileAction::Done) => FileStep::Done,
            Ok(FileAction::CopyPlaceholder) => FileStep::CopyPlaceholder,
            Ok(FileAction::Retrieve) => FileStep::Retrieve,
            Err(e) => FileStep::Failed(e),
        },
        FileEvent::PlaceholderCopied { filename } => {
            record_placeholder(cache, filename.as_str());
            FileStep::Flush
        },
        FileEvent::IconSaved { filename } => {
            record_icon(cache, request, filename.as_str());
            FileStep::Flush
        },
        FileEvent::RetrievalFailed { error } => match after_failed_retrieval(request, error) {
            Ok(_) => FileStep::ResolveTarget,
            Err(e) => FileStep::Failed(e),
        },
        FileEvent::TargetExtracted { target } => {
            match alias_app_icon(cache, request.key.as_str(), borrowed_target(&target)) {
                Ok(_) => FileStep::Flush,
                Err(e) => FileStep::Failed(e),
            }
        },
        FileEvent::StorageFailed => FileStep::Failed(IconError::Io),
        FileEvent::Flushed => FileStep::Done,
    }
}

/// One step of the extraction of an application identity's icon, in the
/// manner of [`extract_and_save_icon_from_file`].
pub fn extract_and_save_icon_umid(
    cache: &mut IconCache,
    aumid: &AppUserModelId,
    event: IdentityEvent,
) -> (step: IdentityStep)
    requires
        old(cache).wf(),
    ensures
        final(cache).wf(),
        step == identity_step(old(cache)@, aumid, event),
        final(cache)@ == identity_step_cache(old(cache)@, aumid, event),
{
    match event {
        IdentityEvent::Requested => match plan_identity_extraction(cache, aumid) {
            IdentityAction::Done => IdentityStep::Done,
            IdentityAction::CopyThemeIcons => IdentityStep::CopyThemeIcons,
            IdentityAction::FindShortcut => IdentityStep::FindShortcut,
        },
        IdentityEvent::ThemeIconsCopied { light, dark } => {
            record_theme_icons(cache, aumid, light.as_str(), dark.as_str());
            IdentityStep::Flush
        },
        IdentityEvent::ThemeIconsMissing => IdentityStep::Failed(IconError::NotFound),
        IdentityEvent::ShortcutExtracted { shortcut } => {
            match alias_app_icon(cache, aumid.as_str(), borrowed_target(&shortcut)) {
                Ok(_) => IdentityStep::Flush,
                Err(e) => IdentityStep::Failed(e),
            }
        },
        IdentityEvent::StorageFailed => IdentityStep::Failed(IconError::Io),
        IdentityEvent::Flushed => IdentityStep::Done,
    }
}

} // verus!
