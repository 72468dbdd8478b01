use pika_backup::error::{Error, Message};
use pika_backup::exclude::{
    exclude_chosen_paths, is_editable, pattern_from_selection, pattern_page, save_pattern, toggle_suggested,
    unreadable_rows, ExcludeRule, ExcludeSet, PatternKind,
};
use pika_backup::i18n::Text;
use pika_backup::paths::{
    etc, exclude_base_folder, exclude_dialog_folder, paths_or_canceled, portal_refusal, rel_path, select_include_paths,
    starts_with, system_refusal,
};
use pika_backup::transfer::{archive_name_prefix, transfer_suggestions, TransferArchive};

fn p(s: &str) -> Vec<String> {
    let mut v = Vec::new();
    if s.starts_with('/') {
        v.push("/".to_string());
    }
    for c in s.split('/').filter(|c| !c.is_empty()) {
        v.push(c.to_string());
    }
    v
}

fn tr(s: &str) -> Text {
    Text::Translatable(s.to_string())
}

fn pattern(kind: PatternKind, s: &str) -> ExcludeRule {
    ExcludeRule::Pattern(kind, s.to_string())
}

fn rules_of(set: &ExcludeSet) -> Vec<ExcludeRule> {
    set.rules().iter().map(|r| r.duplicate()).collect()
}

#[test]
fn paths_relative_to_home() {
    assert_eq!(rel_path(&p("/home/u/Documents/x"), &p("/home/u")), p("Documents/x"));
    assert_eq!(rel_path(&p("/home/u"), &p("/home/u")), Vec::<String>::new());
    assert_eq!(rel_path(&p("/etc/fstab"), &p("/home/u")), p("/etc/fstab"));
    let mut rejoined = p("/home/u");
    rejoined.extend(rel_path(&p("/home/u/Music/a"), &p("/home/u")));
    assert_eq!(rejoined, p("/home/u/Music/a"));
    assert!(starts_with(&p("/home/u/a"), &p("/home/u")));
    assert!(!starts_with(&p("/home/user"), &p("/home/u")));
}

#[test]
fn exclusion_dialog_opens_in_common_folder() {
    let includes = vec![p("/home/u/Documents/a"), p("/home/u/Documents/b/c"), p("/home/u/Documents/d")];
    assert_eq!(exclude_base_folder(&includes), Some(p("/home/u/Documents")));
    let apart = vec![p("/home/u/a"), p("/srv/b")];
    assert_eq!(exclude_base_folder(&apart), Some(p("/")));
    assert_eq!(exclude_base_folder(&Vec::new()), None);
    assert_eq!(exclude_dialog_folder(Some(p("/home/u/file.txt")), true, p("/home/u")), p("/home/u"));
    assert_eq!(exclude_dialog_folder(Some(p("/")), true, p("/home/u")), p("/home/u"));
    assert_eq!(exclude_dialog_folder(Some(p("/srv")), false, p("/home/u")), p("/srv"));
    assert_eq!(exclude_dialog_folder(None, false, p("/home/u")), p("/home/u"));
}

#[test]
fn chosen_paths_or_cancel() {
    assert_eq!(paths_or_canceled(vec![1, 2]), Ok(vec![1, 2]));
    assert_eq!(paths_or_canceled::<u8>(Vec::new()), Err(Error::UserCanceled));
}

#[test]
fn sandbox_refuses_portal_and_system_paths() {
    let chosen = vec![
        p("/home/u/Music"),
        p("/run/user/1000/doc/abc/file"),
        p("/dev/sda"),
        p("/"),
        p("/devices"),
    ];
    let s = select_include_paths(chosen.clone(), &p("/run/user/1000"), true);
    assert_eq!(s.included, vec![p("/home/u/Music"), p("/devices")]);
    assert_eq!(s.portal, vec![p("/run/user/1000/doc/abc/file")]);
    assert_eq!(s.system, vec![p("/dev/sda"), p("/")]);
    let outside = select_include_paths(chosen.clone(), &p("/run/user/1000"), false);
    assert_eq!(outside.included, chosen);
    assert!(outside.portal.is_empty() && outside.system.is_empty());
}

#[test]
fn include_refusal_messages() {
    let m = portal_refusal(&vec!["/a".to_string(), "/b".to_string()]);
    assert_eq!(m.text, tr("Unable to Include Location"));
    assert_eq!(
        m.secondary_text,
        Text::Format {
            msgid: "The following paths could not be included because they aren't reliably available in the sandbox:\n{}"
                .to_string(),
            args: vec!["/a\n/b".to_string()],
        }
    );
    assert_eq!(
        system_refusal(),
        Message {
            text: tr("Unable to Include Location"),
            secondary_text: tr("Pika Backup cannot be used to backup the entire system or the “/dev” directory."),
        }
    );
}

#[test]
fn exclusion_rules_form_a_set() {
    let mut set = ExcludeSet::new();
    set.insert(ExcludeRule::Predefined(1));
    set.insert(pattern(PatternKind::Fnmatch, "*.tmp"));
    set.insert(ExcludeRule::Predefined(1));
    assert_eq!(set.rules().len(), 2);
    assert!(set.contains(&pattern(PatternKind::Fnmatch, "*.tmp")));
    assert!(!set.contains(&pattern(PatternKind::RegularExpression, "*.tmp")));
    set.remove(&ExcludeRule::Predefined(1));
    assert_eq!(rules_of(&set), vec![pattern(PatternKind::Fnmatch, "*.tmp")]);
}

#[test]
fn suggested_rules_toggle() {
    let mut set = ExcludeSet::new();
    set.insert(pattern(PatternKind::PathPrefix, "/home/u/.cache"));
    toggle_suggested(&mut set, 3, true);
    toggle_suggested(&mut set, 4, true);
    assert!(set.contains(&ExcludeRule::Predefined(3)));
    toggle_suggested(&mut set, 3, false);
    assert_eq!(rules_of(&set), vec![ExcludeRule::Predefined(4)]);
}

#[test]
fn chosen_files_and_folders_are_excluded() {
    let mut set = ExcludeSet::new();
    exclude_chosen_paths(&mut set, &vec!["/a".to_string(), "/b".to_string(), "/a".to_string()], true);
    assert_eq!(
        rules_of(&set),
        vec![pattern(PatternKind::PathPrefix, "/a"), pattern(PatternKind::PathPrefix, "/b")]
    );
    exclude_chosen_paths(&mut set, &vec!["/a".to_string()], false);
    assert!(set.contains(&pattern(PatternKind::PathFullMatch, "/a")));
    assert_eq!(set.rules().len(), 3);
}

#[test]
fn patterns_written_by_hand() {
    assert_eq!(pattern_from_selection(0, "*.o".to_string()).ok(), Some(pattern(PatternKind::Fnmatch, "*.o")));
    assert_eq!(
        pattern_from_selection(1, "^a$".to_string()).ok(),
        Some(pattern(PatternKind::RegularExpression, "^a$"))
    );
    assert_eq!(
        pattern_from_selection(2, "x".to_string()).err(),
        Some(Error::Message(Message {
            text: Text::Verbatim("No valid pattern type selected".to_string()),
            secondary_text: Text::Verbatim(String::new()),
        }))
    );
    let mut set = ExcludeSet::new();
    set.insert(pattern(PatternKind::Fnmatch, "*.o"));
    save_pattern(&mut set, Some(pattern(PatternKind::Fnmatch, "*.o")), pattern(PatternKind::Fnmatch, "*.obj"));
    assert_eq!(rules_of(&set), vec![pattern(PatternKind::Fnmatch, "*.obj")]);
    assert!(is_editable(&pattern(PatternKind::RegularExpression, "x")));
    assert!(!is_editable(&pattern(PatternKind::PathPrefix, "/x")));
    assert!(!is_editable(&ExcludeRule::Predefined(0)));
}

#[test]
fn pattern_page_setup() {
    let new = pattern_page(None);
    assert!(new.can_pop);
    assert_eq!(new.button_label, tr("Add"));
    assert_eq!(new.text, None);
    let rule = pattern(PatternKind::RegularExpression, "^x");
    let edit = pattern_page(Some(&rule));
    assert!(!edit.can_pop);
    assert_eq!(edit.button_label, tr("Save"));
    assert_eq!(edit.text, Some("^x".to_string()));
    assert_eq!(edit.selected, Some(1));
}

#[test]
fn unreadable_path_suggestions() {
    let mut set = ExcludeSet::new();
    set.insert(pattern(PatternKind::PathPrefix, "/a"));
    let suggested = Some(vec![pattern(PatternKind::PathPrefix, "/a"), pattern(PatternKind::PathPrefix, "/b")]);
    assert_eq!(unreadable_rows(&set, &suggested), (true, vec![true, false]));
    assert_eq!(unreadable_rows(&set, &None), (false, Vec::new()));
    assert_eq!(unreadable_rows(&set, &Some(Vec::new())), (false, Vec::new()));
}

fn archive(name: &str, host: &str) -> TransferArchive {
    TransferArchive {
        name: name.to_string(),
        included: vec!["Documents".to_string()],
        excluded: Vec::new(),
        hostname: host.to_string(),
        username: "u".to_string(),
    }
}

#[test]
fn archive_name_prefixes() {
    assert_eq!(archive_name_prefix("laptop-2024-01-01"), Some("laptop-".to_string()));
    assert_eq!(archive_name_prefix("-x"), Some("-".to_string()));
    assert_eq!(archive_name_prefix("plain"), None);
}

#[test]
fn transfer_suggestions_from_archives() {
    let archives = vec![
        archive("laptop-1", "laptop"),
        archive("desk-1", "desk"),
        archive("laptop-2", "laptop"),
        archive("single", "laptop"),
        archive("laptop-3", "laptop"),
        archive("desk-2", "desk"),
        archive("old-1", "old"),
    ];
    assert_eq!(transfer_suggestions(&archives), vec![5, 4]);
    assert!(transfer_suggestions(&vec![archive("a-1", "x"), archive("b-1", "x")]).is_empty());
}

#[test]
fn transfer_suggestions_are_capped() {
    let archives: Vec<TransferArchive> = (0..30).map(|i| archive(&format!("p-{}", i), &format!("host{}", i))).collect();
    let s = transfer_suggestions(&archives);
    assert_eq!(s, (20..30).rev().collect::<Vec<usize>>());
}

#[test]
fn host_configuration_folder() {
    assert_eq!(etc(false), p("/etc"));
    assert_eq!(etc(true), p("/run/host/etc"));
}

#[test]
fn exclusion_rules_keep_insertion_order() {
    let mut set = ExcludeSet::new();
    set.insert(pattern(PatternKind::Fnmatch, "*.tmp"));
    set.insert(ExcludeRule::Predefined(2));
    set.insert(pattern(PatternKind::Fnmatch, "*.tmp"));
    assert_eq!(rules_of(&set), vec![pattern(PatternKind::Fnmatch, "*.tmp"), ExcludeRule::Predefined(2)]);
}

#[test]
fn base_folder_is_the_deepest_common_ancestor() {
    let includes = vec![p("/home/u/Documents/a"), p("/home/u/Documents/b"), p("/home/u/Music")];
    assert_eq!(exclude_base_folder(&includes), Some(p("/home/u")));
    assert_eq!(exclude_base_folder(&vec![p("/home/u"), p("/srv")]), Some(p("/")));
}
