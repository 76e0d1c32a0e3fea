use icon_extractor::cache::{IconCache, IconDescriptor};
use icon_extractor::error::{IconError, ResolutionCause};
use icon_extractor::extract::{
    after_failed_retrieval, alias_app_icon, plan_file_extraction, plan_identity_extraction,
    record_icon, record_placeholder, record_theme_icons, recorded_icon, FileAction,
    IdentityAction,
};
use icon_extractor::names::{
    dark_name, fresh_static_name, fresh_theme_names, light_name, static_name,
};
use icon_extractor::request::{AppUserModelId, FileRequest, SourceKind, MAX_ALIAS_DEPTH};

fn still(name: &str) -> IconDescriptor {
    IconDescriptor::Static(name.to_string())
}

#[test]
fn extension_selects_the_strategy() {
    assert_eq!(FileRequest::new("C:\\a", None).kind(), SourceKind::NoExtension);
    assert_eq!(FileRequest::new("C:\\a.exe", Some("exe")).kind(), SourceKind::Executable);
    assert_eq!(FileRequest::new("C:\\a.lnk", Some("lnk")).kind(), SourceKind::Shortcut);
    assert_eq!(FileRequest::new("C:\\a.url", Some("url")).kind(), SourceKind::Url);
    assert_eq!(FileRequest::new("C:\\a.txt", Some("txt")).kind(), SourceKind::Generic);
}

#[test]
fn extension_is_taken_in_lower_case() {
    let request = FileRequest::new("C:\\A.EXE", Some("EXE"));
    assert_eq!(request.extension.as_deref(), Some("exe"));
    assert_eq!(request.kind(), SourceKind::Executable);
    assert_eq!(request.key, "C:\\A.EXE");
    assert_eq!(request.depth, 0);
    assert_eq!(FileRequest::new("b.Lnk", Some("Lnk")).kind(), SourceKind::Shortcut);
}

#[test]
fn what_is_no_file_is_not_found() {
    let cache = IconCache::new();
    let request = FileRequest::new("C:\\dir.exe", Some("exe"));
    assert_eq!(
        plan_file_extraction(&cache, &request, false),
        Err(IconError::NotFound)
    );
}

#[test]
fn file_without_extension_is_done_and_records_nothing() {
    let mut cache = IconCache::new();
    let request = FileRequest::new("C:\\README", None);
    assert_eq!(plan_file_extraction(&cache, &request, true), Ok(FileAction::Done));
    record_icon(&mut cache, &request, "x.png");
    assert!(cache.app_entries().is_empty());
    assert!(cache.file_entries().is_empty());
}

#[test]
fn same_key_is_retrieved_once() {
    let mut cache = IconCache::new();
    let request = FileRequest::new("C:\\app.exe", Some("exe"));
    assert_eq!(plan_file_extraction(&cache, &request, true), Ok(FileAction::Retrieve));
    record_icon(&mut cache, &request, "one.png");
    assert_eq!(plan_file_extraction(&cache, &request, true), Ok(FileAction::Done));
    assert!(cache.get_app_icon("C:\\app.exe").unwrap().same_as(&still("one.png")));
    assert!(cache.get_file_icon("exe").is_none());
}

#[test]
fn executables_are_kept_by_path() {
    let mut cache = IconCache::new();
    let first = FileRequest::new("C:\\a.exe", Some("exe"));
    let second = FileRequest::new("C:\\b.exe", Some("exe"));
    record_icon(&mut cache, &first, "a.png");
    assert_eq!(plan_file_extraction(&cache, &second, true), Ok(FileAction::Retrieve));
}

#[test]
fn generic_files_share_the_icon_of_their_extension() {
    let mut cache = IconCache::new();
    let first = FileRequest::new("C:\\a.txt", Some("txt"));
    let second = FileRequest::new("D:\\b.TXT", Some("TXT"));
    assert_eq!(plan_file_extraction(&cache, &first, true), Ok(FileAction::Retrieve));
    record_icon(&mut cache, &first, "txt.png");
    assert_eq!(plan_file_extraction(&cache, &second, true), Ok(FileAction::Done));
    assert!(cache.get_file_icon("txt").unwrap().same_as(&still("txt.png")));
    assert!(cache.get_app_icon("C:\\a.txt").is_none());
}

#[test]
fn url_files_share_one_placeholder() {
    let mut cache = IconCache::new();
    let first = FileRequest::new("C:\\one.url", Some("url"));
    let second = FileRequest::new("C:\\two.url", Some("url"));
    assert_eq!(
        plan_file_extraction(&cache, &first, true),
        Ok(FileAction::CopyPlaceholder)
    );
    record_placeholder(&mut cache, "placeholder.png");
    assert_eq!(plan_file_extraction(&cache, &first, true), Ok(FileAction::Done));
    assert_eq!(plan_file_extraction(&cache, &second, true), Ok(FileAction::Done));
    assert!(cache.get_file_icon("url").unwrap().same_as(&still("placeholder.png")));
    assert_eq!(cache.file_entries().len(), 1);
    assert!(cache.app_entries().is_empty());
}

#[test]
fn only_shortcuts_fall_back_on_a_target() {
    let shortcut = FileRequest::new("a.lnk", Some("lnk"));
    assert_eq!(after_failed_retrieval(&shortcut, IconError::NotFound), Ok(()));
    assert_eq!(after_failed_retrieval(&shortcut, IconError::Format), Ok(()));
    assert_eq!(
        after_failed_retrieval(&FileRequest::new("a.exe", Some("exe")), IconError::NotFound),
        Err(IconError::NotFound)
    );
    assert_eq!(
        after_failed_retrieval(&FileRequest::new("a.txt", Some("txt")), IconError::Format),
        Err(IconError::Format)
    );
    assert_eq!(
        after_failed_retrieval(&FileRequest::new("a.url", Some("url")), IconError::Io),
        Err(IconError::Io)
    );
}

#[test]
fn alias_chains_are_bounded() {
    let mut request = FileRequest::new("a.lnk", Some("lnk"));
    for depth in 0..MAX_ALIAS_DEPTH {
        assert_eq!(request.depth, depth);
        assert_eq!(after_failed_retrieval(&request, IconError::NotFound), Ok(()));
        request = request.target("a.lnk", Some("lnk"));
    }
    assert_eq!(request.depth, MAX_ALIAS_DEPTH);
    assert_eq!(
        after_failed_retrieval(&request, IconError::NotFound),
        Err(IconError::Resolution(ResolutionCause::TooDeep))
    );
    let last = FileRequest { key: "z.lnk".to_string(), extension: None, depth: u32::MAX };
    assert_eq!(last.target("t.exe", Some("EXE")).depth, u32::MAX);
    assert_eq!(last.target("t.exe", Some("EXE")).kind(), SourceKind::Executable);
}

#[test]
fn shortcut_takes_the_descriptor_of_its_target() {
    let mut cache = IconCache::new();
    let target = FileRequest::new("C:\\app.exe", Some("exe"));
    record_icon(&mut cache, &target, "app.png");
    let res = alias_app_icon(&mut cache, "C:\\app.lnk", Some((&target, Ok(()))));
    assert_eq!(res, Ok(()));
    let shortcut = cache.get_app_icon("C:\\app.lnk").unwrap();
    let of_target = cache.get_app_icon("C:\\app.exe").unwrap();
    assert!(shortcut.same_as(of_target));
    assert!(shortcut.same_as(&still("app.png")));
    let request = FileRequest::new("C:\\app.lnk", Some("lnk"));
    assert_eq!(plan_file_extraction(&cache, &request, true), Ok(FileAction::Done));
}

#[test]
fn shortcut_without_target_fails_to_resolve() {
    let mut cache = IconCache::new();
    let res = alias_app_icon(&mut cache, "C:\\app.lnk", None);
    assert_eq!(res, Err(IconError::Resolution(ResolutionCause::NoTarget)));
    assert!(cache.get_app_icon("C:\\app.lnk").is_none());
}

#[test]
fn shortcut_to_a_target_without_icon_fails_with_that_cause() {
    let mut cache = IconCache::new();
    let target = FileRequest::new("C:\\app.exe", Some("exe"));
    let res = alias_app_icon(&mut cache, "C:\\app.lnk", Some((&target, Err(IconError::NotFound))));
    assert_eq!(res, Err(IconError::Resolution(ResolutionCause::TargetNotFound)));
    assert_ne!(res, Err(IconError::Resolution(ResolutionCause::NoTarget)));
    assert!(cache.get_app_icon("C:\\app.lnk").is_none());
}

#[test]
fn every_failure_of_the_target_has_its_cause() {
    let mut cache = IconCache::new();
    let key = "k.lnk";
    let request = FileRequest::new("t.exe", Some("exe"));
    let target = &request;
    assert_eq!(
        alias_app_icon(&mut cache, key, Some((target, Err(IconError::Io)))),
        Err(IconError::Resolution(ResolutionCause::TargetIo))
    );
    assert_eq!(
        alias_app_icon(&mut cache, key, Some((target, Err(IconError::Format)))),
        Err(IconError::Resolution(ResolutionCause::TargetFormat))
    );
    assert_eq!(
        alias_app_icon(
            &mut cache,
            key,
            Some((target, Err(IconError::Resolution(ResolutionCause::NoTarget))))
        ),
        Err(IconError::Resolution(ResolutionCause::TargetUnresolved))
    );
    assert_eq!(
        alias_app_icon(&mut cache, key, Some((target, Ok(())))),
        Err(IconError::Resolution(ResolutionCause::TargetNotCached))
    );
    let bare = FileRequest::new("C:\\bare", None);
    assert_eq!(
        alias_app_icon(&mut cache, key, Some((&bare, Ok(())))),
        Err(IconError::Resolution(ResolutionCause::TargetNotCached))
    );
    assert!(cache.app_entries().is_empty());
    assert_eq!(IconError::NotFound.as_cause(), ResolutionCause::TargetNotFound);
}

#[test]
fn packaged_app_gets_theme_icons() {
    let mut cache = IconCache::new();
    let aumid = AppUserModelId::Appx("Vendor.App_1234!App".to_string());
    assert_eq!(plan_identity_extraction(&cache, &aumid), IdentityAction::CopyThemeIcons);
    record_theme_icons(&mut cache, &aumid, "n_light.png", "n_dark.png");
    assert_eq!(plan_identity_extraction(&cache, &aumid), IdentityAction::Done);
    let expected = IconDescriptor::Dynamic {
        light: "n_light.png".to_string(),
        dark: "n_dark.png".to_string(),
        mask: None,
    };
    assert!(cache.get_app_icon("Vendor.App_1234!App").unwrap().same_as(&expected));
}

#[test]
fn opaque_identity_goes_through_its_shortcut() {
    let mut cache = IconCache::new();
    let aumid = AppUserModelId::PropertyStore("legacy.app".to_string());
    assert_eq!(aumid.as_str(), "legacy.app");
    assert_eq!(plan_identity_extraction(&cache, &aumid), IdentityAction::FindShortcut);
    let shortcut = FileRequest::new("C:\\menu\\legacy.lnk", Some("lnk"));
    record_icon(&mut cache, &shortcut, "legacy.png");
    let res = alias_app_icon(&mut cache, aumid.as_str(), Some((&shortcut, Ok(()))));
    assert_eq!(res, Ok(()));
    assert!(cache.get_app_icon("legacy.app").unwrap().same_as(&still("legacy.png")));
    assert_eq!(plan_identity_extraction(&cache, &aumid), IdentityAction::Done);
}

#[test]
fn opaque_identity_without_shortcut_fails_to_resolve() {
    let mut cache = IconCache::new();
    let res = alias_app_icon(&mut cache, "legacy.app", None);
    assert_eq!(res, Err(IconError::Resolution(ResolutionCause::NoTarget)));
}

#[test]
fn asset_names_are_built_from_the_base_name() {
    assert_eq!(static_name("abc"), "abc.png");
    assert_eq!(light_name("abc"), "abc_light.png");
    assert_eq!(dark_name("abc"), "abc_dark.png");
}

#[test]
fn fresh_names_have_their_suffixes_and_differ() {
    let a = fresh_static_name();
    let b = fresh_static_name();
    assert!(a.ends_with(".png"));
    assert!(a.len() > 4);
    assert_ne!(a, b);
    let (light, dark) = fresh_theme_names();
    assert!(light.ends_with("_light.png"));
    assert!(dark.ends_with("_dark.png"));
    assert_eq!(
        light.strip_suffix("_light.png").unwrap(),
        dark.strip_suffix("_dark.png").unwrap()
    );
}

#[test]
fn shortcut_takes_the_descriptor_of_a_target_recorded_by_extension() {
    let mut cache = IconCache::new();
    let target = FileRequest::new("C:\\notes.TXT", Some("TXT"));
    record_icon(&mut cache, &target, "txt.png");
    let res = alias_app_icon(&mut cache, "C:\\notes.lnk", Some((&target, Ok(()))));
    assert_eq!(res, Ok(()));
    assert!(cache.get_app_icon("C:\\notes.lnk").unwrap().same_as(&still("txt.png")));
    assert!(cache.get_file_icon("txt").unwrap().same_as(&still("txt.png")));
    assert!(cache.get_app_icon("C:\\notes.TXT").is_none());
}

#[test]
fn shortcut_takes_the_placeholder_of_a_url_target() {
    let mut cache = IconCache::new();
    record_placeholder(&mut cache, "placeholder.png");
    let target = FileRequest::new("C:\\site.url", Some("url"));
    let res = alias_app_icon(&mut cache, "C:\\site.lnk", Some((&target, Ok(()))));
    assert_eq!(res, Ok(()));
    assert!(cache.get_app_icon("C:\\site.lnk").unwrap().same_as(&still("placeholder.png")));
}

#[test]
fn recorded_icon_is_found_where_the_kind_keeps_it() {
    let mut cache = IconCache::new();
    let exe = FileRequest::new("C:\\a.exe", Some("exe"));
    let txt = FileRequest::new("C:\\a.txt", Some("txt"));
    let url = FileRequest::new("C:\\a.url", Some("url"));
    let bare = FileRequest::new("C:\\a", None);
    assert!(recorded_icon(&cache, &exe).is_none());
    assert!(recorded_icon(&cache, &txt).is_none());
    assert!(recorded_icon(&cache, &url).is_none());
    record_icon(&mut cache, &exe, "exe.png");
    record_icon(&mut cache, &txt, "txt.png");
    record_placeholder(&mut cache, "url.png");
    record_icon(&mut cache, &bare, "bare.png");
    assert!(recorded_icon(&cache, &exe).unwrap().same_as(&still("exe.png")));
    assert!(recorded_icon(&cache, &txt).unwrap().same_as(&still("txt.png")));
    assert!(recorded_icon(&cache, &url).unwrap().same_as(&still("url.png")));
    assert!(recorded_icon(&cache, &bare).is_none());
    assert!(recorded_icon(&cache, &FileRequest::new("D:\\b.txt", Some("txt"))).is_some());
    assert!(recorded_icon(&cache, &FileRequest::new("D:\\b.exe", Some("exe"))).is_none());
}
