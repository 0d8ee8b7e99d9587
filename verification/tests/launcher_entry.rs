use chameleon::launcher::entry::ApplicationEntry;

#[test]
fn test_remove_field_codes() {
    assert_eq!(
        ApplicationEntry::remove_field_codes("firefox %u"),
        "firefox"
    );
    assert_eq!(
        ApplicationEntry::remove_field_codes("zeditor %U"),
        "zeditor"
    );
    assert_eq!(
        ApplicationEntry::remove_field_codes("myapp %f %F %u %U"),
        "myapp"
    );
    assert_eq!(
        ApplicationEntry::remove_field_codes("app %f arg1 %U arg2"),
        "app arg1 arg2"
    );
}

#[test]
fn every_field_code_is_removed() {
    assert_eq!(ApplicationEntry::remove_field_codes("run %u%U --x %k"), "run --x");
    assert_eq!(ApplicationEntry::remove_field_codes("a%fb%Fc%dd%De%nf%Ng%vh%mi%ij%ck%kl"), "abcdefghijkl");
}

#[test]
fn escaped_percents_are_kept() {
    assert_eq!(ApplicationEntry::remove_field_codes("app %%u"), "app %%u");
    assert_eq!(ApplicationEntry::remove_field_codes("%%ff"), "%%ff");
    assert_eq!(ApplicationEntry::remove_field_codes("100%%"), "100%%");
    assert_eq!(ApplicationEntry::remove_field_codes("a %%%u b"), "a %% b");
}

#[test]
fn removing_field_codes_twice_changes_nothing() {
    for line in ["app %f arg1 %U arg2", "x %%%f %% %", "\t%k%k  y"] {
        let once = ApplicationEntry::remove_field_codes(line);
        assert_eq!(ApplicationEntry::remove_field_codes(&once), once);
    }
}

#[test]
fn removed_field_codes_leave_single_spaces() {
    assert_eq!(ApplicationEntry::remove_field_codes("\tapp  %f\n--flag   %U "), "app --flag");
}
