use icon_extractor::cache::{IconCache, IconDescriptor};
use icon_extractor::error::{IconError, ResolutionCause};
use icon_extractor::extract::{
    extract_and_save_icon_from_file, extract_and_save_icon_umid, FileEvent, FileStep,
    IdentityEvent, IdentityStep,
};
use icon_extractor::request::{AppUserModelId, FileRequest};

/// A scripted stand-in for the platform and the store: which paths have an
/// icon, where shortcuts point, and how often each was asked.
struct Script {
    with_icon: Vec<&'static str>,
    targets: Vec<(&'static str, &'static str)>,
    retrievals: usize,
    flushes: usize,
    saved: usize,
}

impl Script {
    fn new(with_icon: Vec<&'static str>, targets: Vec<(&'static str, &'static str)>) -> Script {
        Script { with_icon, targets, retrievals: 0, flushes: 0, saved: 0 }
    }

    fn extension(path: &str) -> Option<&str> {
        let name = path.rsplit('\\').next().unwrap();
        name.rfind('.').map(|dot| &name[dot + 1..])
    }

    fn run(&mut self, cache: &mut IconCache, request: FileRequest) -> Result<(), IconError> {
        let mut event = FileEvent::Requested { is_file: true };
        loop {
            event = match extract_and_save_icon_from_file(cache, &request, event) {
                FileStep::Done => return Ok(()),
                FileStep::Failed(e) => return Err(e),
                FileStep::CopyPlaceholder => {
                    self.saved += 1;
                    FileEvent::PlaceholderCopied { filename: format!("asset{}.png", self.saved) }
                }
                FileStep::Retrieve => {
                    self.retrievals += 1;
                    if self.with_icon.contains(&request.key.as_str()) {
                        self.saved += 1;
                        FileEvent::IconSaved { filename: format!("asset{}.png", self.saved) }
                    } else {
                        FileEvent::RetrievalFailed { error: IconError::NotFound }
                    }
                }
                FileStep::ResolveTarget => {
                    let found = self.targets.iter().find(|t| t.0 == request.key).map(|t| t.1);
                    FileEvent::TargetExtracted {
                        target: found.map(|path| {
                            let next = request.target(path, Script::extension(path));
                            (next.clone(), self.run(cache, next))
                        }),
                    }
                }
                FileStep::Flush => {
                    self.flushes += 1;
                    FileEvent::Flushed
                }
            };
        }
    }

    fn extract(&mut self, cache: &mut IconCache, path: &str) -> Result<(), IconError> {
        self.run(cache, FileRequest::new(path, Script::extension(path)))
    }
}

fn still(name: &str) -> IconDescriptor {
    IconDescriptor::Static(name.to_string())
}

#[test]
fn second_extraction_makes_no_retrieval() {
    let mut cache = IconCache::new();
    let mut script = Script::new(vec!["C:\\app.exe"], vec![]);
    assert_eq!(script.extract(&mut cache, "C:\\app.exe"), Ok(()));
    assert_eq!(script.retrievals, 1);
    assert_eq!(script.flushes, 1);
    assert_eq!(script.extract(&mut cache, "C:\\app.exe"), Ok(()));
    assert_eq!(script.retrievals, 1);
    assert_eq!(script.flushes, 1);
    assert!(cache.get_app_icon("C:\\app.exe").unwrap().same_as(&still("asset1.png")));
}

#[test]
fn two_url_files_yield_one_descriptor() {
    let mut cache = IconCache::new();
    let mut script = Script::new(vec![], vec![]);
    assert_eq!(script.extract(&mut cache, "C:\\one.url"), Ok(()));
    assert_eq!(script.extract(&mut cache, "C:\\two.url"), Ok(()));
    assert_eq!(script.saved, 1);
    assert_eq!(script.retrievals, 0);
    assert_eq!(cache.file_entries().len(), 1);
    assert!(cache.get_file_icon("url").unwrap().same_as(&still("asset1.png")));
    assert!(cache.get_app_icon("C:\\one.url").is_none());
    assert!(cache.get_app_icon("C:\\two.url").is_none());
}

#[test]
fn shortcut_with_its_own_icon_needs_no_target() {
    let mut cache = IconCache::new();
    let mut script = Script::new(vec!["C:\\a.lnk"], vec![("C:\\a.lnk", "C:\\a.exe")]);
    assert_eq!(script.extract(&mut cache, "C:\\a.lnk"), Ok(()));
    assert_eq!(script.retrievals, 1);
    assert!(cache.get_app_icon("C:\\a.exe").is_none());
    assert!(cache.get_app_icon("C:\\a.lnk").unwrap().same_as(&still("asset1.png")));
}

#[test]
fn shortcut_falls_back_on_its_target() {
    let mut cache = IconCache::new();
    let mut script = Script::new(vec!["C:\\a.exe"], vec![("C:\\a.lnk", "C:\\a.exe")]);
    assert_eq!(script.extract(&mut cache, "C:\\a.lnk"), Ok(()));
    assert_eq!(script.retrievals, 2);
    assert_eq!(script.saved, 1);
    assert_eq!(script.flushes, 2);
    let of_shortcut = cache.get_app_icon("C:\\a.lnk").unwrap();
    let of_target = cache.get_app_icon("C:\\a.exe").unwrap();
    assert!(of_shortcut.same_as(of_target));
    assert!(of_target.same_as(&still("asset1.png")));
}

#[test]
fn shortcut_without_target_is_a_resolution_error() {
    let mut cache = IconCache::new();
    let mut script = Script::new(vec![], vec![]);
    assert_eq!(
        script.extract(&mut cache, "C:\\a.lnk"),
        Err(IconError::Resolution(ResolutionCause::NoTarget))
    );
    assert_eq!(script.flushes, 0);
    assert!(cache.app_entries().is_empty());
}

#[test]
fn shortcut_to_iconless_target_is_a_resolution_error_with_its_cause() {
    let mut cache = IconCache::new();
    let mut script = Script::new(vec![], vec![("C:\\a.lnk", "C:\\a.exe")]);
    assert_eq!(
        script.extract(&mut cache, "C:\\a.lnk"),
        Err(IconError::Resolution(ResolutionCause::TargetNotFound))
    );
    assert!(cache.app_entries().is_empty());
}

#[test]
fn shortcut_to_a_generic_file_takes_the_icon_of_its_extension() {
    let mut cache = IconCache::new();
    let mut script = Script::new(vec!["C:\\doc.txt"], vec![("C:\\a.lnk", "C:\\doc.txt")]);
    assert_eq!(script.extract(&mut cache, "C:\\a.lnk"), Ok(()));
    assert_eq!(script.saved, 1);
    assert_eq!(script.flushes, 2);
    assert!(cache.get_file_icon("txt").unwrap().same_as(&still("asset1.png")));
    assert!(cache.get_app_icon("C:\\a.lnk").unwrap().same_as(&still("asset1.png")));
    assert!(cache.get_app_icon("C:\\doc.txt").is_none());
}

#[test]
fn shortcut_to_a_cached_generic_file_makes_no_second_asset() {
    let mut cache = IconCache::new();
    let mut script = Script::new(vec!["C:\\doc.txt"], vec![("C:\\a.lnk", "D:\\other.txt")]);
    assert_eq!(script.extract(&mut cache, "C:\\doc.txt"), Ok(()));
    assert_eq!(script.extract(&mut cache, "C:\\a.lnk"), Ok(()));
    assert_eq!(script.saved, 1);
    assert_eq!(script.retrievals, 2);
    assert!(cache.get_app_icon("C:\\a.lnk").unwrap().same_as(&still("asset1.png")));
}

#[test]
fn shortcut_to_a_url_file_takes_the_placeholder() {
    let mut cache = IconCache::new();
    let mut script = Script::new(vec![], vec![("C:\\a.lnk", "C:\\site.url")]);
    assert_eq!(script.extract(&mut cache, "C:\\a.lnk"), Ok(()));
    assert_eq!(script.retrievals, 1);
    assert_eq!(script.saved, 1);
    assert!(cache.get_file_icon("url").unwrap().same_as(&still("asset1.png")));
    assert!(cache.get_app_icon("C:\\a.lnk").unwrap().same_as(&still("asset1.png")));
}

#[test]
fn shortcut_to_a_file_without_extension_has_nothing_to_take() {
    let mut cache = IconCache::new();
    let mut script = Script::new(vec![], vec![("C:\\a.lnk", "C:\\bare")]);
    assert_eq!(
        script.extract(&mut cache, "C:\\a.lnk"),
        Err(IconError::Resolution(ResolutionCause::TargetNotCached))
    );
    assert!(cache.app_entries().is_empty());
    assert!(cache.file_entries().is_empty());
}

#[test]
fn shortcuts_in_a_circle_end_in_a_resolution_error() {
    let mut cache = IconCache::new();
    let mut script =
        Script::new(vec![], vec![("C:\\a.lnk", "C:\\b.lnk"), ("C:\\b.lnk", "C:\\a.lnk")]);
    assert_eq!(
        script.extract(&mut cache, "C:\\a.lnk"),
        Err(IconError::Resolution(ResolutionCause::TargetUnresolved))
    );
    assert_eq!(script.retrievals, 17);
    assert!(cache.app_entries().is_empty());
}

#[test]
fn chain_of_shortcuts_shares_the_last_targets_descriptor() {
    let mut cache = IconCache::new();
    let mut script = Script::new(
        vec!["C:\\app.exe"],
        vec![("C:\\a.lnk", "C:\\b.lnk"), ("C:\\b.lnk", "C:\\app.exe")],
    );
    assert_eq!(script.extract(&mut cache, "C:\\a.lnk"), Ok(()));
    assert!(cache.get_app_icon("C:\\a.lnk").unwrap().same_as(&still("asset1.png")));
    assert!(cache.get_app_icon("C:\\b.lnk").unwrap().same_as(&still("asset1.png")));
    assert_eq!(script.flushes, 3);
}

#[test]
fn generic_file_without_icon_fails_with_the_retrieval_error() {
    let mut cache = IconCache::new();
    let request = FileRequest::new("C:\\a.bin", Some("bin"));
    let first =
        extract_and_save_icon_from_file(&mut cache, &request, FileEvent::Requested { is_file: true });
    assert_eq!(first, FileStep::Retrieve);
    let next = extract_and_save_icon_from_file(
        &mut cache,
        &request,
        FileEvent::RetrievalFailed { error: IconError::Format },
    );
    assert_eq!(next, FileStep::Failed(IconError::Format));
}

#[test]
fn storage_failure_is_an_io_error_and_records_nothing() {
    let mut cache = IconCache::new();
    let request = FileRequest::new("C:\\a.url", Some("url"));
    let first =
        extract_and_save_icon_from_file(&mut cache, &request, FileEvent::Requested { is_file: true });
    assert_eq!(first, FileStep::CopyPlaceholder);
    let next = extract_and_save_icon_from_file(&mut cache, &request, FileEvent::StorageFailed);
    assert_eq!(next, FileStep::Failed(IconError::Io));
    assert!(cache.file_entries().is_empty());
}

#[test]
fn missing_file_fails_at_the_first_step() {
    let mut cache = IconCache::new();
    let request = FileRequest::new("C:\\gone.exe", Some("exe"));
    let first = extract_and_save_icon_from_file(
        &mut cache,
        &request,
        FileEvent::Requested { is_file: false },
    );
    assert_eq!(first, FileStep::Failed(IconError::NotFound));
}

#[test]
fn packaged_app_is_extracted_in_three_steps() {
    let mut cache = IconCache::new();
    let aumid = AppUserModelId::Appx("Vendor.App!Main".to_string());
    assert_eq!(
        extract_and_save_icon_umid(&mut cache, &aumid, IdentityEvent::Requested),
        IdentityStep::CopyThemeIcons
    );
    let copied = IdentityEvent::ThemeIconsCopied {
        light: "n_light.png".to_string(),
        dark: "n_dark.png".to_string(),
    };
    assert_eq!(extract_and_save_icon_umid(&mut cache, &aumid, copied), IdentityStep::Flush);
    assert_eq!(
        extract_and_save_icon_umid(&mut cache, &aumid, IdentityEvent::Flushed),
        IdentityStep::Done
    );
    assert_eq!(
        extract_and_save_icon_umid(&mut cache, &aumid, IdentityEvent::Requested),
        IdentityStep::Done
    );
    let expected = IconDescriptor::Dynamic {
        light: "n_light.png".to_string(),
        dark: "n_dark.png".to_string(),
        mask: None,
    };
    assert!(cache.get_app_icon("Vendor.App!Main").unwrap().same_as(&expected));
}

#[test]
fn packaged_app_without_assets_is_not_found() {
    let mut cache = IconCache::new();
    let aumid = AppUserModelId::Appx("Vendor.App!Main".to_string());
    assert_eq!(
        extract_and_save_icon_umid(&mut cache, &aumid, IdentityEvent::ThemeIconsMissing),
        IdentityStep::Failed(IconError::NotFound)
    );
    assert_eq!(
        extract_and_save_icon_umid(&mut cache, &aumid, IdentityEvent::StorageFailed),
        IdentityStep::Failed(IconError::Io)
    );
    assert!(cache.app_entries().is_empty());
}

#[test]
fn opaque_identity_takes_the_descriptor_of_its_shortcut() {
    let mut cache = IconCache::new();
    let mut script = Script::new(vec!["C:\\menu\\old.lnk"], vec![]);
    let aumid = AppUserModelId::PropertyStore("old.app".to_string());
    assert_eq!(
        extract_and_save_icon_umid(&mut cache, &aumid, IdentityEvent::Requested),
        IdentityStep::FindShortcut
    );
    let outcome = script.extract(&mut cache, "C:\\menu\\old.lnk");
    let event = IdentityEvent::ShortcutExtracted {
        shortcut: Some((FileRequest::new("C:\\menu\\old.lnk", Some("lnk")), outcome)),
    };
    assert_eq!(extract_and_save_icon_umid(&mut cache, &aumid, event), IdentityStep::Flush);
    assert!(cache.get_app_icon("old.app").unwrap().same_as(&still("asset1.png")));
}

#[test]
fn opaque_identity_without_shortcut_is_a_resolution_error() {
    let mut cache = IconCache::new();
    let aumid = AppUserModelId::PropertyStore("old.app".to_string());
    let event = IdentityEvent::ShortcutExtracted { shortcut: None };
    assert_eq!(
        extract_and_save_icon_umid(&mut cache, &aumid, event),
        IdentityStep::Failed(IconError::Resolution(ResolutionCause::NoTarget))
    );
}
