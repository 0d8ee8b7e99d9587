use chameleon::launcher::apps::app_launch_command;
use chameleon::launcher::config::{
    ApplicationProviderConfig, LauncherConfig, ProviderInstance, ProviderList, ProviderVariant,
    WallpapersProviderConfig,
};
use chameleon::launcher::entry::{ApplicationEntry, EntryConversionError, EntryValues};
use chameleon::launcher::fuzzy::{item_fuzzy_score, passes_filter, update_fuzzy_scores};
use chameleon::launcher::order::compare_items;
use freedesktop_desktop_entry::DesktopEntry;
use std::cmp::Ordering;

#[test]
fn empty_query_scores_zero() {
    assert_eq!(item_fuzzy_score("firefox", ""), 0);
}

#[test]
fn unmatched_query_scores_minus_one() {
    assert_eq!(item_fuzzy_score("firefox", "zzz"), -1);
    assert_eq!(item_fuzzy_score("ff", "firefox"), -1);
}

#[test]
fn matched_query_scores_positive() {
    assert!(item_fuzzy_score("firefox", "fox") > 0);
    assert!(item_fuzzy_score("firefox", "ffx") > 0);
}

#[test]
fn scores_are_computed_per_item() {
    let ids = vec!["firefox".to_string(), "kitty".to_string()];
    let scores = update_fuzzy_scores(&ids, "kit");
    assert_eq!(scores.len(), 2);
    assert_eq!(scores[0], -1);
    assert!(scores[1] > 0);
    assert_eq!(scores[1], item_fuzzy_score("kitty", "kit"));
}

#[test]
fn filter_hides_unmatched_items() {
    assert!(!passes_filter(-1));
    assert!(passes_filter(0));
    assert!(passes_filter(42));
}

#[test]
fn higher_score_comes_first_then_by_name() {
    assert_eq!(compare_items(10, "b", 5, "a"), Ordering::Less);
    assert_eq!(compare_items(5, "a", 10, "b"), Ordering::Greater);
    assert_eq!(compare_items(5, "alpha", 5, "beta"), Ordering::Less);
    assert_eq!(compare_items(5, "beta", 5, "alpha"), Ordering::Greater);
    assert_eq!(compare_items(5, "ab", 5, "abc"), Ordering::Less);
    assert_eq!(compare_items(5, "same", 5, "same"), Ordering::Equal);
}

#[test]
fn terminal_apps_run_in_the_terminal() {
    let term = Some("kitty".to_string());
    let (program, args) = app_launch_command("htop", true, &term);
    assert_eq!(program, "kitty");
    assert_eq!(args, vec!["htop".to_string()]);
}

#[test]
fn other_apps_run_through_the_shell() {
    let (program, args) = app_launch_command("firefox --new-window", false, &Some("kitty".to_string()));
    assert_eq!(program, "sh");
    assert_eq!(args, vec!["-c".to_string(), "firefox --new-window".to_string()]);
    let (program, args) = app_launch_command("htop", true, &None);
    assert_eq!(program, "sh");
    assert_eq!(args, vec!["-c".to_string(), "htop".to_string()]);
}

#[test]
fn provider_list_drops_duplicates() {
    let list = ProviderList::new(&vec![
        ProviderVariant::Wallpapers,
        ProviderVariant::Applications,
        ProviderVariant::Wallpapers,
    ]);
    assert_eq!(list.variants().len(), 2);
    assert!(list.variants().contains(&ProviderVariant::Wallpapers));
    assert!(list.variants().contains(&ProviderVariant::Applications));
    assert_eq!(ProviderList::default().variants().len(), 0);
}

#[test]
fn providers_are_made_from_their_config() {
    let config = LauncherConfig {
        searchbar_placeholder: "Search".to_string(),
        providers: ProviderList::new(&vec![ProviderVariant::Applications, ProviderVariant::Wallpapers]),
        applications_provider_config: ApplicationProviderConfig {
            terminal_cmd: Some("foot".to_string()),
            detach: true,
        },
        wallpapers_provider_config: WallpapersProviderConfig {
            path: "/w".to_string(),
            change_command: "awww img {{image}}".to_string(),
            matugen: true,
            matugen_flags: vec!["-m".to_string()],
        },
    };
    let instances = config.instantiate_providers();
    assert_eq!(instances.len(), 2);
    let mut seen_apps = false;
    let mut seen_walls = false;
    for i in &instances {
        match i {
            ProviderInstance::Applications(a) => {
                seen_apps = true;
                assert_eq!(a.terminal_cmd.as_deref(), Some("foot"));
                assert!(a.detach);
            }
            ProviderInstance::Wallpapers(w) => {
                seen_walls = true;
                assert_eq!(w.path, "/w");
                assert!(w.matugen);
                assert_eq!(w.matugen_flags, vec!["-m".to_string()]);
            }
        }
    }
    assert!(seen_apps && seen_walls);
}

#[test]
fn launcher_config_defaults_are_empty() {
    let c = LauncherConfig::default();
    assert_eq!(c.searchbar_placeholder, "");
    assert_eq!(c.providers.variants().len(), 0);
    assert!(c.applications_provider_config.terminal_cmd.is_none());
    assert!(!c.wallpapers_provider_config.matugen);
    assert!(c.instantiate_providers().is_empty());
}

fn values() -> EntryValues {
    EntryValues {
        entry_type: Some("Application".to_string()),
        no_display: None,
        hidden: None,
        name: Some("Firefox".to_string()),
        command: Some("firefox %u".to_string()),
        comment: None,
        icon: Some("firefox".to_string()),
        terminal: Some("false".to_string()),
    }
}

#[test]
fn entry_from_values_cleans_the_command() {
    let e = ApplicationEntry::from_values(&values()).unwrap();
    assert_eq!(e.name, "Firefox");
    assert_eq!(e.command, "firefox");
    assert_eq!(e.comment, "");
    assert_eq!(e.icon, "firefox");
    assert!(!e.terminal);
}

#[test]
fn entry_errors() {
    let mut v = values();
    v.no_display = Some("true".to_string());
    assert!(matches!(ApplicationEntry::from_values(&v), Err(EntryConversionError::NoDisplay)));
    let mut v = values();
    v.hidden = Some("true".to_string());
    assert!(matches!(ApplicationEntry::from_values(&v), Err(EntryConversionError::Hidden)));
    let mut v = values();
    v.hidden = Some("false".to_string());
    assert!(ApplicationEntry::from_values(&v).is_ok());
    let mut v = values();
    v.name = None;
    assert!(matches!(ApplicationEntry::from_values(&v), Err(EntryConversionError::MissingField("Name"))));
    let mut v = values();
    v.command = None;
    assert!(matches!(ApplicationEntry::from_values(&v), Err(EntryConversionError::MissingField("Exec"))));
}

#[test]
fn entry_from_desktop_file() {
    let text = "[Desktop Entry]\nType=Application\nName=Kitty\nExec=kitty %F\nComment=Terminal\nIcon=kitty\nTerminal=true\n";
    let de = DesktopEntry::from_str("/apps/kitty.desktop", text, None::<&[&str]>).unwrap();
    let e = ApplicationEntry::try_from(de).unwrap();
    assert_eq!(e.name, "Kitty");
    assert_eq!(e.command, "kitty");
    assert_eq!(e.comment, "Terminal");
    assert_eq!(e.icon, "kitty");
    assert!(e.terminal);
}

#[test]
fn desktop_file_without_main_group() {
    let text = "[Other Group]\nName=X\n";
    let de = DesktopEntry::from_str("/apps/x.desktop", text, None::<&[&str]>).unwrap();
    assert!(matches!(ApplicationEntry::try_from(de), Err(EntryConversionError::NoGroup)));
}

#[test]
fn hidden_desktop_file() {
    let text = "[Desktop Entry]\nType=Application\nName=X\nExec=x\nNoDisplay=true\n";
    let de = DesktopEntry::from_str("/apps/x.desktop", text, None::<&[&str]>).unwrap();
    assert!(matches!(ApplicationEntry::try_from(de), Err(EntryConversionError::NoDisplay)));
}

#[test]
fn field_codes_inside_words_are_removed_too() {
    assert_eq!(ApplicationEntry::remove_field_codes("a%kb  c"), "ab c");
    assert_eq!(ApplicationEntry::remove_field_codes("   "), "");
    assert_eq!(ApplicationEntry::remove_field_codes("50%x"), "50%x");
}

#[test]
fn conversion_error_messages() {
    assert_eq!(EntryConversionError::NoGroup.message(), "Can't get `Desktop Entry` group");
    assert_eq!(EntryConversionError::Hidden.message(), "Entry is hidden");
    assert_eq!(EntryConversionError::MissingField("Exec").message(), "Missing required field: Exec");
    assert_eq!(EntryConversionError::NotInPath.message(), "Can't find this app in $PATH");
}

use chameleon::launcher::fuzzy::score_of_match;

#[test]
fn match_scores() {
    assert_eq!(score_of_match(Some(5)), 5);
    assert_eq!(score_of_match(Some(u16::MAX)), 65535);
    assert_eq!(score_of_match(None), -1);
}

use chameleon::launcher::entry::applications;

#[test]
fn applications_keep_the_entries_that_convert_in_order() {
    let a = DesktopEntry::from_str("/apps/a.desktop", "[Desktop Entry]\nType=Application\nName=A\nExec=a %U\n", None::<&[&str]>).unwrap();
    let b = DesktopEntry::from_str("/apps/b.desktop", "[Desktop Entry]\nType=Link\nName=B\nExec=b\n", None::<&[&str]>).unwrap();
    let c = DesktopEntry::from_str("/apps/c.desktop", "[Desktop Entry]\nType=Application\nName=C\nExec=c --x\n", None::<&[&str]>).unwrap();
    let apps = applications(vec![a, b, c]);
    let names: Vec<(&str, &str)> = apps.iter().map(|e| (e.name.as_str(), e.command.as_str())).collect();
    assert_eq!(names, vec![("A", "a"), ("C", "c --x")]);
    assert!(applications(vec![]).is_empty());
}

#[test]
fn empty_query_shows_every_item() {
    let ids = vec!["firefox".to_string(), "kitty".to_string(), String::new()];
    let scores = update_fuzzy_scores(&ids, "");
    assert_eq!(scores, vec![0, 0, 0]);
    assert!(scores.iter().all(|s| passes_filter(*s)));
}

#[test]
fn only_applications_convert() {
    let mut v = values();
    v.entry_type = Some("Link".to_string());
    assert!(matches!(ApplicationEntry::from_values(&v), Err(EntryConversionError::NotApplication)));
    let mut v = values();
    v.entry_type = None;
    assert!(matches!(ApplicationEntry::from_values(&v), Err(EntryConversionError::NotApplication)));
    let text = "[Desktop Entry]\nType=Link\nName=Site\nExec=xdg-open x\nURL=https://example.org\n";
    let de = DesktopEntry::from_str("/apps/site.desktop", text, None::<&[&str]>).unwrap();
    assert!(matches!(ApplicationEntry::try_from(de), Err(EntryConversionError::NotApplication)));
    assert_eq!(EntryConversionError::NotApplication.message(), "Type should be Application");
}

use chameleon::launcher::listing::{list_for_query, listing};

#[test]
fn listing_shows_matches_by_score_then_id() {
    let ids = vec!["b".to_string(), "a".to_string(), "c".to_string(), "d".to_string(), "a".to_string()];
    let scores = vec![5, 5, -1, 9, 5];
    assert_eq!(listing(&scores, &ids), vec![3, 1, 4, 0]);
    assert!(listing(&vec![-1, -1], &vec!["x".to_string(), "y".to_string()]).is_empty());
}

#[test]
fn a_query_lists_exactly_the_matching_items() {
    let ids = vec!["firefox".to_string(), "kitty".to_string(), "files".to_string()];
    let all = list_for_query(&ids, "");
    assert_eq!(all, vec![2, 0, 1]);
    let some = list_for_query(&ids, "fi");
    assert!(some.contains(&0) && some.contains(&2) && !some.contains(&1));
    assert_eq!(some.len(), 2);
    assert!(list_for_query(&ids, "zz").is_empty());
}
