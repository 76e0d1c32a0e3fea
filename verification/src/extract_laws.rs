//! What the extraction decisions guarantee across several requests.

use crate::cache::{CacheView, DescriptorView};
use crate::error::{IconError, ResolutionCause};
use crate::extract::{
    alias_outcome, aliased, fallback, file_step, file_step_cache, identity_step,
    identity_step_cache, placeholder_recorded, plan, recorded, recorded_descriptor, FileAction, FileEvent, FileStep,
    IdentityEvent, IdentityStep,
};
use crate::request::{kind_of, AppUserModelId, RequestView, SourceKind, MAX_ALIAS_DEPTH};
use vstd::prelude::*;

verus! {

/// A request whose icon is recorded asks for no retrieval: once the icon
/// that a retrieval gave is recorded, the same request is done at once.
pub proof fn lemma_recorded_icon_is_not_retrieved_again(
    cache: CacheView,
    request: RequestView,
    filename: Seq<char>,
)
    ensures
        plan(recorded(cache, request, filename), request, true) == Ok::<FileAction, IconError>(
            FileAction::Done,
        ),
{
}

/// Recording an icon takes no recorded icon away: what was done before is
/// done afterwards.
pub proof fn lemma_recording_keeps_hits(
    cache: CacheView,
    request: RequestView,
    filename: Seq<char>,
    other: RequestView,
)
    requires
        plan(cache, other, true) == Ok::<FileAction, IconError>(FileAction::Done),
    ensures
        plan(recorded(cache, request, filename), other, true) == Ok::<FileAction, IconError>(
            FileAction::Done,
        ),
{
}

/// All `.url` files share one descriptor: once the placeholder is recorded
/// for one of them, any other is done at once, the extension's entry is the
/// placeholder, and no entry by path was made.
pub proof fn lemma_url_files_share_placeholder(
    cache: CacheView,
    first: RequestView,
    second: RequestView,
    filename: Seq<char>,
)
    requires
        kind_of(first.extension) == SourceKind::Url,
        kind_of(second.extension) == SourceKind::Url,
    ensures
        plan(placeholder_recorded(cache, filename), first, true) == Ok::<FileAction, IconError>(
            FileAction::Done,
        ),
        plan(placeholder_recorded(cache, filename), second, true) == Ok::<FileAction, IconError>(
            FileAction::Done,
        ),
        placeholder_recorded(cache, filename).files["url"@] == DescriptorView::Static(filename),
        placeholder_recorded(cache, filename).apps == cache.apps,
{
}

/// A shortcut whose target has a recorded icon, by path or by extension,
/// succeeds: its descriptor is the target's, the target keeps its own, and
/// the shortcut is done at once when asked for again.
pub proof fn lemma_alias_has_target_descriptor(
    cache: CacheView,
    shortcut: RequestView,
    target: RequestView,
)
    requires
        kind_of(shortcut.extension) == SourceKind::Shortcut,
        recorded_descriptor(cache, target).is_some(),
    ensures
        alias_outcome(cache, Some((target, Ok(())))).is_ok(),
        recorded_descriptor(aliased(cache, shortcut.key, Some((target, Ok(())))), shortcut)
            == recorded_descriptor(cache, target),
        recorded_descriptor(aliased(cache, shortcut.key, Some((target, Ok(())))), target)
            == recorded_descriptor(cache, target),
        plan(aliased(cache, shortcut.key, Some((target, Ok(())))), shortcut, true) == Ok::<
            FileAction,
            IconError,
        >(FileAction::Done),
{
}

/// An existing file is done at its first step exactly when it has no
/// extension or the cache holds a descriptor for it.
pub proof fn lemma_done_means_recorded(cache: CacheView, request: RequestView)
    ensures
        plan(cache, request, true) == Ok::<FileAction, IconError>(FileAction::Done) <==> kind_of(
            request.extension,
        ) == SourceKind::NoExtension || recorded_descriptor(cache, request).is_some(),
{
}

/// Whatever records an icon for a file with an extension leaves a descriptor
/// for it: a target with an extension whose extraction succeeded can be
/// aliased.
pub proof fn lemma_recording_leaves_a_descriptor(
    cache: CacheView,
    request: RequestView,
    filename: Seq<char>,
)
    requires
        kind_of(request.extension) != SourceKind::NoExtension,
    ensures
        recorded_descriptor(recorded(cache, request, filename), request) == Some(
            DescriptorView::Static(filename),
        ),
        kind_of(request.extension) == SourceKind::Url ==> recorded_descriptor(
            placeholder_recorded(cache, filename),
            request,
        ) == Some(DescriptorView::Static(filename)),
{
}

/// A shortcut without a target and a shortcut whose target has no icon both
/// fail to resolve, with causes that tell them apart; neither changes the
/// cache.
pub proof fn lemma_alias_failures_are_told_apart(
    cache: CacheView,
    key: Seq<char>,
    target: RequestView,
)
    ensures
        alias_outcome(cache, None) == Err::<(), IconError>(
            IconError::Resolution(ResolutionCause::NoTarget),
        ),
        alias_outcome(cache, Some((target, Err(IconError::NotFound)))) == Err::<(), IconError>(
            IconError::Resolution(ResolutionCause::TargetNotFound),
        ),
        alias_outcome(cache, None) != alias_outcome(
            cache,
            Some((target, Err(IconError::NotFound))),
        ),
        aliased(cache, key, None) == cache,
        aliased(cache, key, Some((target, Err(IconError::NotFound)))) == cache,
{
}

/// Only a shortcut has a fallback: for any other file the failure of the
/// retrieval is the failure of the request, unchanged.
pub proof fn lemma_only_shortcuts_fall_back(request: RequestView, error: IconError)
    ensures
        fallback(request, error).is_ok() ==> kind_of(request.extension) == SourceKind::Shortcut
            && request.depth < MAX_ALIAS_DEPTH,
        kind_of(request.extension) != SourceKind::Shortcut ==> fallback(request, error) == Err::<
            (),
            IconError,
        >(error),
{
}

/// Extracting the same file twice retrieves at most once: after the step
/// that records the stored icon, the request is done at its first step.
pub proof fn lemma_second_extraction_is_done_at_once(
    cache: CacheView,
    request: RequestView,
    filename: String,
)
    ensures
        file_step(
            file_step_cache(cache, request, (FileEvent::IconSaved { filename })),
            request,
            (FileEvent::Requested { is_file: true }),
        ) == FileStep::Done,
{
}

/// The cache is written through: a step that changes the cache asks for a
/// flush, and a step that fails leaves the cache as it was.
pub proof fn lemma_file_changes_are_flushed(
    cache: CacheView,
    request: RequestView,
    event: FileEvent,
)
    ensures
        file_step_cache(cache, request, event) != cache ==> file_step(cache, request, event)
            == FileStep::Flush,
        file_step(cache, request, event) is Failed ==> file_step_cache(cache, request, event)
            == cache,
{
}

/// A file's extraction succeeds only when the cache has been flushed, or at
/// its first step, when there is nothing to do: the file has no extension,
/// or its icon is recorded.
pub proof fn lemma_file_success_needs_hit_or_flush(
    cache: CacheView,
    request: RequestView,
    event: FileEvent,
)
    requires
        file_step(cache, request, event) == FileStep::Done,
    ensures
        event is Flushed || (event is Requested && plan(cache, request, true) == Ok::<
            FileAction,
            IconError,
        >(FileAction::Done)),
{
}

/// The same for application identities: changes are flushed, failures change
/// nothing, and success needs a flush or a recorded icon.
pub proof fn lemma_identity_changes_are_flushed(
    cache: CacheView,
    aumid: &AppUserModelId,
    event: IdentityEvent,
)
    ensures
        identity_step_cache(cache, aumid, event) != cache ==> identity_step(cache, aumid, event)
            == IdentityStep::Flush,
        identity_step(cache, aumid, event) is Failed ==> identity_step_cache(cache, aumid, event)
            == cache,
        identity_step(cache, aumid, event) == IdentityStep::Done ==> event is Flushed || (event
            is Requested && cache.apps.dom().contains(aumid.key())),
{
}

} // verus!
