//! Applications as the launcher lists them, built from freedesktop desktop
//! entries.

use vstd::prelude::*;
use freedesktop_desktop_entry::{DesktopEntry, Group};
use crate::text::{
    char_vec, has_no_whitespace, is_whitespace, join, join_strings, lemma_join_single_spaced,
    lemma_words_of_join, lemma_words_solid, single_spaced, split_words, str_eq, string_of, views,
    words,
};

verus! {

broadcast use vstd::string::group_string_axioms;

#[verifier::external_type_specification]
#[verifier::external_body]
pub struct ExDesktopEntry(DesktopEntry);

#[verifier::external_type_specification]
#[verifier::external_body]
pub struct ExGroup(Group);

/// What a group of a desktop entry holds: each key with its default
/// (unlocalized) value.
pub uninterp spec fn group_values(g: Group) -> Map<Seq<char>, Seq<char>>;

/// What the groups of a desktop entry hold: each group's name with what the
/// group holds.
pub uninterp spec fn entry_groups(e: DesktopEntry) -> Map<Seq<char>, Map<Seq<char>, Seq<char>>>;

/// The name of the main group of a desktop entry.
pub open spec fn main_group_name() -> Seq<char> {
    "Desktop Entry"@
}

/// `Groups::desktop_entry` on the entry's groups: the group named
/// `Desktop Entry`, looked up in the entry's map of groups. The contract
/// says that it is found exactly when the entry has that group, and that
/// it is that group.
#[verifier::external_body]
fn desktop_entry_group(entry: &DesktopEntry) -> (r: Option<&Group>)
    ensures
        r is Some <==> entry_groups(*entry).contains_key(main_group_name()),
        r matches Some(g) ==> entry_groups(*entry)[main_group_name()] == group_values(*g),
{
    entry.groups.desktop_entry()
}

/// `Group::entry`: the default value stored under `key` in the group's map.
/// The contract says that it is there exactly when the group holds the key,
/// and that it is the value the group holds for it.
#[verifier::external_body]
fn group_entry<'a>(group: &'a Group, key: &str) -> (r: Option<&'a str>)
    ensures
        r is Some <==> group_values(*group).contains_key(key@),
        r matches Some(v) ==> group_values(*group)[key@] == v@,
{
    group.entry(key)
}

/// An application that the launcher can start.
pub struct ApplicationEntry {
    pub name: String,
    pub command: String,
    pub comment: String,
    pub icon: String,
    /// Whether it runs in a terminal.
    pub terminal: bool,
}

impl Clone for ApplicationEntry {
    fn clone(&self) -> (r: Self)
        ensures
            r == *self,
    {
        ApplicationEntry {
            name: self.name.clone(),
            command: self.command.clone(),
            comment: self.comment.clone(),
            icon: self.icon.clone(),
            terminal: self.terminal,
        }
    }
}

/// The meaning of an `ApplicationEntry`.
pub struct ApplicationEntryView {
    pub name: Seq<char>,
    pub command: Seq<char>,
    pub comment: Seq<char>,
    pub icon: Seq<char>,
    pub terminal: bool,
}

impl View for ApplicationEntry {
    type V = ApplicationEntryView;

    open spec fn view(&self) -> ApplicationEntryView {
        ApplicationEntryView {
            name: self.name@,
            command: self.command@,
            comment: self.comment@,
            icon: self.icon@,
            terminal: self.terminal,
        }
    }
}

/// Why a desktop entry is not listed as an application.
#[derive(Debug)]
pub enum EntryConversionError {
    /// The entry's `Type` is not `Application`.
    NotApplication,
    /// The entry has no `Desktop Entry` group.
    NoGroup,
    /// The application exists, but is not to be shown in menus.
    NoDisplay,
    /// The entry is hidden.
    Hidden,
    /// The application is not in `$PATH`. The conversion never gives it:
    /// finding a program in `$PATH` reads the environment and the file
    /// system, which a conversion of the entry's values does not.
    NotInPath,
    /// A required key is missing.
    MissingField(&'static str),
}

/// The meaning of an `EntryConversionError`.
pub enum EntryConversionErrorView {
    NotApplication,
    NoGroup,
    NoDisplay,
    Hidden,
    NotInPath,
    MissingField(Seq<char>),
}

impl View for EntryConversionError {
    type V = EntryConversionErrorView;

    open spec fn view(&self) -> EntryConversionErrorView {
        match self {
            EntryConversionError::NotApplication => EntryConversionErrorView::NotApplication,
            EntryConversionError::NoGroup => EntryConversionErrorView::NoGroup,
            EntryConversionError::NoDisplay => EntryConversionErrorView::NoDisplay,
            EntryConversionError::Hidden => EntryConversionErrorView::Hidden,
            EntryConversionError::NotInPath => EntryConversionErrorView::NotInPath,
            EntryConversionError::MissingField(f) => EntryConversionErrorView::MissingField(f@),
        }
    }
}


/// The message of a conversion error.
pub open spec fn conversion_message(e: EntryConversionErrorView) -> Seq<char> {
    match e {
        EntryConversionErrorView::NotApplication => "Type should be Application"@,
        EntryConversionErrorView::NoGroup => "Can't get `Desktop Entry` group"@,
        EntryConversionErrorView::NoDisplay => "This application exists, but don't display it in the menus"@,
        EntryConversionErrorView::Hidden => "Entry is hidden"@,
        EntryConversionErrorView::NotInPath => "Can't find this app in $PATH"@,
        EntryConversionErrorView::MissingField(f) => "Missing required field: "@ + f,
    }
}

impl EntryConversionError {
    /// The message that describes the error.
    pub fn message(&self) -> (r: String)
        ensures
            r@ == conversion_message(self@),
    {
        match self {
            EntryConversionError::NotApplication => "Type should be Application".to_owned(),
            EntryConversionError::NoGroup => "Can't get `Desktop Entry` group".to_owned(),
            EntryConversionError::NoDisplay => "This application exists, but don't display it in the menus".to_owned(),
            EntryConversionError::Hidden => "Entry is hidden".to_owned(),
            EntryConversionError::NotInPath => "Can't find this app in $PATH".to_owned(),
            EntryConversionError::MissingField(f) => "Missing required field: ".to_owned().concat(f),
        }
    }
}

/// The meaning of a conversion result.
pub open spec fn entry_result_view(r: Result<ApplicationEntry, EntryConversionError>) -> Result<
    ApplicationEntryView,
    EntryConversionErrorView,
> {
    match r {
        Ok(e) => Ok(e@),
        Err(e) => Err(e@),
    }
}

/// Whether `c` is the letter of a field code of an `Exec` line: `%f`, `%F`,
/// `%u`, `%U`, `%d`, `%D`, `%n`, `%N`, `%v`, `%m`, `%i`, `%c`, `%k`.
pub open spec fn is_field_code_letter(c: char) -> bool {
    c == 'f' || c == 'F' || c == 'u' || c == 'U' || c == 'd' || c == 'D' || c == 'n' || c == 'N' || c == 'v'
        || c == 'm' || c == 'i' || c == 'c' || c == 'k'
}

/// `s` with its field codes removed, read from left to right: `%%` is an
/// escaped `%` and is kept as it is, a `%` followed by a field code letter
/// is removed with the letter, and every other character is kept.
pub open spec fn strip_codes(s: Seq<char>) -> Seq<char>
    decreases s.len(),
{
    if s.len() == 0 {
        s
    } else if s.len() >= 2 && s[0] == '%' && s[1] == '%' {
        seq!['%', '%'] + strip_codes(s.skip(2))
    } else if s.len() >= 2 && s[0] == '%' && is_field_code_letter(s[1]) {
        strip_codes(s.skip(2))
    } else {
        seq![s[0]] + strip_codes(s.drop_first())
    }
}

/// The words `ws`, each with its field codes removed, those left empty
/// dropped.
pub open spec fn stripped_words(ws: Seq<Seq<char>>) -> Seq<Seq<char>>
    decreases ws.len(),
{
    if ws.len() == 0 {
        Seq::empty()
    } else {
        let before = stripped_words(ws.drop_last());
        let w = strip_codes(ws.last());
        if w.len() == 0 {
            before
        } else {
            before.push(w)
        }
    }
}

/// An `Exec` line without its field codes: its words, each with its field
/// codes removed and those left empty dropped, joined by single spaces.
pub open spec fn exec_without_field_codes(line: Seq<char>) -> Seq<char> {
    join(stripped_words(words(line)), seq![' '])
}

/// Whether `c` is the letter of a field code.
fn is_field_code_char(c: char) -> (r: bool)
    ensures
        r == is_field_code_letter(c),
{
    c == 'f' || c == 'F' || c == 'u' || c == 'U' || c == 'd' || c == 'D' || c == 'n' || c == 'N' || c == 'v'
        || c == 'm' || c == 'i' || c == 'c' || c == 'k'
}

/// Removes the field codes of `v`, keeping escaped `%%`.
fn strip_codes_chars(v: &Vec<char>) -> (r: Vec<char>)
    ensures
        r@ == strip_codes(v@),
{
    let mut out: Vec<char> = Vec::new();
    let n = v.len();
    let mut i: usize = 0;
    assert(v@.skip(0) =~= v@);
    while i < n
        invariant
            n == v@.len(),
            i <= n,
            out@ + strip_codes(v@.skip(i as int)) == strip_codes(v@),
        decreases n - i,
    {
        let ghost rest = v@.skip(i as int);
        let ghost before = out@;
        if i + 1 < n && v[i] == '%' && v[i + 1] == '%' {
            assert(rest.skip(2) =~= v@.skip(i + 2));
            out.push('%');
            out.push('%');
            assert(before + strip_codes(rest) =~= out@ + strip_codes(v@.skip(i + 2)));
            i += 2;
        } else if i + 1 < n && v[i] == '%' && is_field_code_char(v[i + 1]) {
            assert(rest.skip(2) =~= v@.skip(i + 2));
            i += 2;
        } else {
            assert(rest.drop_first() =~= v@.skip(i + 1));
            out.push(v[i]);
            assert(before + strip_codes(rest) =~= out@ + strip_codes(v@.skip(i + 1)));
            i += 1;
        }
    }
    assert(v@.skip(n as int) =~= Seq::<char>::empty());
    assert(out@ + Seq::<char>::empty() =~= out@);
    out
}

/// The values of the keys of a `Desktop Entry` group that the conversion
/// reads.
pub struct EntryValues {
    pub entry_type: Option<String>,
    pub no_display: Option<String>,
    pub hidden: Option<String>,
    pub name: Option<String>,
    pub command: Option<String>,
    pub comment: Option<String>,
    pub icon: Option<String>,
    pub terminal: Option<String>,
}

/// The meaning of an optional string.
pub open spec fn opt_view(o: Option<String>) -> Option<Seq<char>> {
    match o {
        Some(s) => Some(s@),
        None => None,
    }
}

/// The meaning of `EntryValues`.
pub struct EntryValuesView {
    pub entry_type: Option<Seq<char>>,
    pub no_display: Option<Seq<char>>,
    pub hidden: Option<Seq<char>>,
    pub name: Option<Seq<char>>,
    pub command: Option<Seq<char>>,
    pub comment: Option<Seq<char>>,
    pub icon: Option<Seq<char>>,
    pub terminal: Option<Seq<char>>,
}

impl View for EntryValues {
    type V = EntryValuesView;

    open spec fn view(&self) -> EntryValuesView {
        EntryValuesView {
            entry_type: opt_view(self.entry_type),
            no_display: opt_view(self.no_display),
            hidden: opt_view(self.hidden),
            name: opt_view(self.name),
            command: opt_view(self.command),
            comment: opt_view(self.comment),
            icon: opt_view(self.icon),
            terminal: opt_view(self.terminal),
        }
    }
}

/// The value under `key` in a group.
pub open spec fn value_of(m: Map<Seq<char>, Seq<char>>, key: Seq<char>) -> Option<Seq<char>> {
    if m.contains_key(key) {
        Some(m[key])
    } else {
        None
    }
}

/// The values that the conversion reads from a group.
pub open spec fn values_of_group(m: Map<Seq<char>, Seq<char>>) -> EntryValuesView {
    EntryValuesView {
        entry_type: value_of(m, "Type"@),
        no_display: value_of(m, "NoDisplay"@),
        hidden: value_of(m, "Hidden"@),
        name: value_of(m, "Name"@),
        command: value_of(m, "Exec"@),
        comment: value_of(m, "Comment"@),
        icon: value_of(m, "Icon"@),
        terminal: value_of(m, "Terminal"@),
    }
}

/// The application described by the values of a `Desktop Entry` group: none
/// when its `Type` is not `Application`, when it is not to be displayed or is
/// hidden, or when it lacks a name or a command.
pub open spec fn entry_from_values(v: EntryValuesView) -> Result<ApplicationEntryView, EntryConversionErrorView> {
    if v.entry_type != Some("Application"@) {
        Err(EntryConversionErrorView::NotApplication)
    } else if v.no_display == Some("true"@) {
        Err(EntryConversionErrorView::NoDisplay)
    } else if v.hidden == Some("true"@) {
        Err(EntryConversionErrorView::Hidden)
    } else {
        match v.name {
            None => Err(EntryConversionErrorView::MissingField("Name"@)),
            Some(name) => match v.command {
                None => Err(EntryConversionErrorView::MissingField("Exec"@)),
                Some(line) => Ok(
                    ApplicationEntryView {
                        name,
                        command: exec_without_field_codes(line),
                        comment: match v.comment {
                            Some(c) => c,
                            None => Seq::empty(),
                        },
                        icon: match v.icon {
                            Some(i) => i,
                            None => Seq::empty(),
                        },
                        terminal: v.terminal == Some("true"@),
                    },
                ),
            },
        }
    }
}

/// The application described by a desktop entry.
pub open spec fn entry_from_desktop_entry(e: DesktopEntry) -> Result<ApplicationEntryView, EntryConversionErrorView> {
    if entry_groups(e).contains_key(main_group_name()) {
        entry_from_values(values_of_group(entry_groups(e)[main_group_name()]))
    } else {
        Err(EntryConversionErrorView::NoGroup)
    }
}

/// Whether an optional value is `Application`.
fn is_application(o: &Option<String>) -> (r: bool)
    ensures
        r == (opt_view(*o) == Some("Application"@)),
{
    match o {
        Some(s) => str_eq(s.as_str(), "Application"),
        None => false,
    }
}

/// Whether an optional value is `true`.
fn is_true(o: &Option<String>) -> (r: bool)
    ensures
        r == (opt_view(*o) == Some("true"@)),
{
    match o {
        Some(s) => str_eq(s.as_str(), "true"),
        None => false,
    }
}

/// Reads the value under `key` of a group.
fn read_value(group: &Group, key: &str) -> (r: Option<String>)
    ensures
        opt_view(r) == value_of(group_values(*group), key@),
{
    match group_entry(group, key) {
        Some(v) => Some(v.to_owned()),
        None => None,
    }
}

impl ApplicationEntry {
    /// An application with the given fields.
    pub fn new(name: String, command: String, comment: String, icon: String, terminal: bool) -> (r: Self)
        ensures
            r@ == (ApplicationEntryView { name: name@, command: command@, comment: comment@, icon: icon@, terminal }),
    {
        ApplicationEntry { name, command, comment, icon, terminal }
    }

    /// Removes field codes from a desktop entry `Exec` line, and leaves its
    /// words separated by single spaces. An escaped `%%` is a literal `%`
    /// and is kept as it is; it never starts a field code.
    ///
    /// For more details, see
    /// [here](https://specifications.freedesktop.org/desktop-entry/latest/exec-variables.html)
    pub fn remove_field_codes(line: &str) -> (r: String)
        ensures
            r@ == exec_without_field_codes(line@),
    {
        let v = char_vec(line);
        let ws = split_words(&v);
        let mut kept: Vec<String> = Vec::new();
        let mut i: usize = 0;
        assert(views(ws@).take(0) =~= Seq::<Seq<char>>::empty());
        while i < ws.len()
            invariant
                i <= ws@.len(),
                views(ws@) == words(line@),
                views(kept@) == stripped_words(views(ws@).take(i as int)),
            decreases ws@.len() - i,
        {
            let wv = char_vec(ws[i].as_str());
            let sv = strip_codes_chars(&wv);
            let ghost prefix = views(ws@).take(i + 1);
            assert(prefix.drop_last() =~= views(ws@).take(i as int));
            assert(prefix.last() == ws@[i as int]@);
            if sv.len() > 0 {
                let ghost before = kept@;
                let piece = string_of(&sv, 0, sv.len());
                assert(piece@ =~= sv@);
                kept.push(piece);
                assert(views(kept@) =~= views(before).push(sv@));
            }
            i += 1;
        }
        assert(views(ws@).take(ws@.len() as int) =~= views(ws@));
        join_strings(&kept)
    }

    /// The application described by the values of a `Desktop Entry` group.
    pub fn from_values(values: &EntryValues) -> (r: Result<ApplicationEntry, EntryConversionError>)
        ensures
            entry_result_view(r) == entry_from_values(values@),
    {
        if !is_application(&values.entry_type) {
            return Err(EntryConversionError::NotApplication);
        }
        if is_true(&values.no_display) {
            return Err(EntryConversionError::NoDisplay);
        }
        if is_true(&values.hidden) {
            return Err(EntryConversionError::Hidden);
        }
        let name = match &values.name {
            Some(n) => n.clone(),
            None => return Err(EntryConversionError::MissingField("Name")),
        };
        let command = match &values.command {
            Some(e) => Self::remove_field_codes(e.as_str()),
            None => return Err(EntryConversionError::MissingField("Exec")),
        };
        let comment = match &values.comment {
            Some(c) => c.clone(),
            None => String::new(),
        };
        let icon = match &values.icon {
            Some(i) => i.clone(),
            None => String::new(),
        };
        let terminal = is_true(&values.terminal);
        Ok(Self::new(name, command, comment, icon, terminal))
    }

    /// The application described by a desktop entry.
    pub fn try_from(entry: DesktopEntry) -> (r: Result<ApplicationEntry, EntryConversionError>)
        ensures
            entry_result_view(r) == entry_from_desktop_entry(entry),
    {
        let group = match desktop_entry_group(&entry) {
            Some(g) => g,
            None => return Err(EntryConversionError::NoGroup),
        };
        let values = EntryValues {
            entry_type: read_value(group, "Type"),
            no_display: read_value(group, "NoDisplay"),
            hidden: read_value(group, "Hidden"),
            name: read_value(group, "Name"),
            command: read_value(group, "Exec"),
            comment: read_value(group, "Comment"),
            icon: read_value(group, "Icon"),
            terminal: read_value(group, "Terminal"),
        };
        Self::from_values(&values)
    }
}


/// The applications that `entries` describe, in their order: the entries
/// that do not convert are left out.
pub open spec fn listed_apps(entries: Seq<DesktopEntry>) -> Seq<ApplicationEntryView>
    decreases entries.len(),
{
    if entries.len() == 0 {
        Seq::empty()
    } else {
        let before = listed_apps(entries.drop_last());
        match entry_from_desktop_entry(entries.last()) {
            Ok(a) => before.push(a),
            Err(_) => before,
        }
    }
}

/// The applications that desktop entries describe, in their order, leaving
/// out those that do not convert.
pub fn applications(entries: Vec<DesktopEntry>) -> (r: Vec<ApplicationEntry>)
    ensures
        r@.map_values(|a: ApplicationEntry| a@) == listed_apps(entries@),
{
    let ghost all = entries@;
    let mut rest = entries;
    let mut apps: Vec<ApplicationEntry> = Vec::new();
    let ghost mut k: int = 0;
    assert(all.take(0) =~= Seq::<DesktopEntry>::empty());
    assert(all.skip(0) =~= all);
    while rest.len() > 0
        invariant
            0 <= k <= all.len(),
            rest@ == all.skip(k),
            apps@.map_values(|a: ApplicationEntry| a@) == listed_apps(all.take(k)),
        decreases rest@.len(),
    {
        let e = rest.remove(0);
        assert(e == all[k]);
        assert(all.take(k + 1).drop_last() =~= all.take(k));
        assert(all.take(k + 1).last() == e);
        let ghost before = apps@;
        match ApplicationEntry::try_from(e) {
            Ok(a) => {
                apps.push(a);
                assert(apps@.map_values(|x: ApplicationEntry| x@) =~= before.map_values(
                    |x: ApplicationEntry| x@,
                ).push(a@));
            },
            Err(_) => {},
        }
        assert(rest@ =~= all.skip(k + 1));
        proof {
            k = k + 1;
        }
    }
    assert(all.take(k) =~= all);
    apps
}

/// Removing field codes from a text that is free of them changes nothing.
proof fn lemma_strip_codes_idempotent(s: Seq<char>)
    ensures
        strip_codes(strip_codes(s)) == strip_codes(s),
    decreases s.len(),
{
    let r = strip_codes(s);
    if s.len() >= 2 && s[0] == '%' && s[1] == '%' {
        lemma_strip_codes_idempotent(s.skip(2));
        assert(r.skip(2) =~= strip_codes(s.skip(2)));
    } else if s.len() >= 2 && s[0] == '%' && is_field_code_letter(s[1]) {
        lemma_strip_codes_idempotent(s.skip(2));
    } else if s.len() > 0 {
        let t = s.drop_first();
        lemma_strip_codes_idempotent(t);
        assert(r.drop_first() =~= strip_codes(t));
        if s[0] == '%' && s.len() >= 2 {
            assert(t[0] == s[1]);
            assert(strip_codes(t) == seq![t[0]] + strip_codes(t.drop_first()));
            assert(r[1] == s[1]);
        }
    }
}

/// Removing field codes keeps a text free of whitespace.
proof fn lemma_strip_codes_no_whitespace(s: Seq<char>)
    requires
        has_no_whitespace(s),
    ensures
        has_no_whitespace(strip_codes(s)),
    decreases s.len(),
{
    let r = strip_codes(s);
    if s.len() >= 2 && s[0] == '%' && (s[1] == '%' || is_field_code_letter(s[1])) {
        let t = s.skip(2);
        assert forall|j: int| 0 <= j < t.len() implies !is_whitespace(#[trigger] t[j]) by {
            assert(t[j] == s[j + 2]);
        }
        lemma_strip_codes_no_whitespace(t);
        if s[1] == '%' {
            assert(!is_whitespace('%'));
            assert forall|j: int| 0 <= j < r.len() implies !is_whitespace(#[trigger] r[j]) by {
                if j >= 2 {
                    assert(r[j] == strip_codes(t)[j - 2]);
                }
            }
        }
    } else if s.len() > 0 {
        let t = s.drop_first();
        assert forall|j: int| 0 <= j < t.len() implies !is_whitespace(#[trigger] t[j]) by {
            assert(t[j] == s[j + 1]);
        }
        lemma_strip_codes_no_whitespace(t);
        assert(!is_whitespace(s[0]));
        assert forall|j: int| 0 <= j < r.len() implies !is_whitespace(#[trigger] r[j]) by {
            if j >= 1 {
                assert(r[j] == strip_codes(t)[j - 1]);
            }
        }
    }
}

/// Removing field codes from a text followed by a character that starts
/// neither an escape nor a code treats the two parts apart.
proof fn lemma_strip_codes_append(a: Seq<char>, x: Seq<char>)
    requires
        x.len() == 0 || (x[0] != '%' && !is_field_code_letter(x[0])),
    ensures
        strip_codes(a + x) == strip_codes(a) + strip_codes(x),
    decreases a.len(),
{
    let s = a + x;
    if a.len() == 0 {
        assert(s =~= x);
        assert(strip_codes(a) =~= Seq::<char>::empty());
        assert(Seq::<char>::empty() + strip_codes(x) =~= strip_codes(x));
    } else if a.len() == 1 {
        assert(s[0] == a[0]);
        assert(s.drop_first() =~= x);
        assert(strip_codes(a) =~= seq![a[0]] + strip_codes(a.drop_first()));
        assert(strip_codes(a.drop_first()) =~= Seq::<char>::empty());
        if x.len() > 0 {
            assert(s[1] == x[0]);
        }
    } else {
        assert(s[0] == a[0]);
        assert(s[1] == a[1]);
        if a[0] == '%' && (a[1] == '%' || is_field_code_letter(a[1])) {
            assert(s.skip(2) =~= a.skip(2) + x);
            lemma_strip_codes_append(a.skip(2), x);
        } else {
            assert(s.drop_first() =~= a.drop_first() + x);
            lemma_strip_codes_append(a.drop_first(), x);
        }
    }
}

/// Removing field codes from words joined by single spaces removes them
/// from each word.
proof fn lemma_strip_codes_join(ws: Seq<Seq<char>>)
    ensures
        strip_codes(join(ws, seq![' '])) == join(ws.map_values(|w: Seq<char>| strip_codes(w)), seq![' ']),
    decreases ws.len(),
{
    let m = ws.map_values(|w: Seq<char>| strip_codes(w));
    if ws.len() == 0 {
        assert(strip_codes(Seq::<char>::empty()) =~= Seq::<char>::empty());
    } else if ws.len() == 1 {
        assert(m[0] == strip_codes(ws[0]));
    } else {
        let pre = ws.drop_last();
        lemma_strip_codes_join(pre);
        assert(m.drop_last() =~= pre.map_values(|w: Seq<char>| strip_codes(w)));
        assert(m.last() == strip_codes(ws.last()));
        let x = seq![' '] + ws.last();
        assert(join(ws, seq![' ']) =~= join(pre, seq![' ']) + x);
        assert(is_whitespace(' ') && !is_field_code_letter(' '));
        lemma_strip_codes_append(join(pre, seq![' ']), x);
        assert(x[0] == ' ');
        assert(x.drop_first() =~= ws.last());
        assert(strip_codes(x) =~= seq![' '] + strip_codes(ws.last()));
        assert(join(m, seq![' ']) =~= join(m.drop_last(), seq![' ']) + seq![' '] + m.last());
    }
}

/// The words left after removing field codes are non-empty, hold no
/// whitespace and no field code, when the words they come from hold no
/// whitespace.
proof fn lemma_stripped_words_solid(ws: Seq<Seq<char>>)
    requires
        forall|k: int| 0 <= k < ws.len() ==> has_no_whitespace(#[trigger] ws[k]),
    ensures
        forall|k: int| 0 <= k < stripped_words(ws).len() ==> #[trigger] stripped_words(ws)[k].len() > 0,
        forall|k: int| 0 <= k < stripped_words(ws).len() ==> has_no_whitespace(#[trigger] stripped_words(ws)[k]),
        forall|k: int|
            0 <= k < stripped_words(ws).len() ==> strip_codes(#[trigger] stripped_words(ws)[k])
                == stripped_words(ws)[k],
    decreases ws.len(),
{
    if ws.len() > 0 {
        let pre = ws.drop_last();
        assert forall|k: int| 0 <= k < pre.len() implies has_no_whitespace(#[trigger] pre[k]) by {
            assert(pre[k] == ws[k]);
        }
        lemma_stripped_words_solid(pre);
        assert(ws.last() == ws[ws.len() - 1]);
        lemma_strip_codes_no_whitespace(ws.last());
        lemma_strip_codes_idempotent(ws.last());
        let b = stripped_words(pre);
        let w = strip_codes(ws.last());
        if w.len() > 0 {
            let r = b.push(w);
            assert forall|k: int| 0 <= k < r.len() implies #[trigger] r[k].len() > 0 && has_no_whitespace(r[k])
                && strip_codes(r[k]) == r[k] by {
                if k < b.len() {
                    assert(r[k] == b[k]);
                }
            }
        }
    }
}

/// Words that are non-empty and hold no field code are all kept as they are.
proof fn lemma_stripped_words_fixed(ws: Seq<Seq<char>>)
    requires
        forall|k: int| 0 <= k < ws.len() ==> #[trigger] ws[k].len() > 0,
        forall|k: int| 0 <= k < ws.len() ==> strip_codes(#[trigger] ws[k]) == ws[k],
    ensures
        stripped_words(ws) == ws,
    decreases ws.len(),
{
    if ws.len() > 0 {
        let pre = ws.drop_last();
        assert forall|k: int| 0 <= k < pre.len() implies #[trigger] pre[k].len() > 0 && strip_codes(pre[k])
            == pre[k] by {
            assert(pre[k] == ws[k]);
        }
        lemma_stripped_words_fixed(pre);
        assert(ws.last() == ws[ws.len() - 1]);
        assert(pre.push(ws.last()) =~= ws);
    }
}

/// A command with its field codes removed holds no whitespace but single
/// spaces between words: none at either end, none doubled, no tab or
/// newline.
pub proof fn law_removed_field_codes_are_single_spaced(line: Seq<char>)
    ensures
        single_spaced(exec_without_field_codes(line)),
{
    lemma_words_solid(line);
    let ws = words(line);
    assert forall|k: int| 0 <= k < ws.len() implies has_no_whitespace(#[trigger] ws[k]) by {
        assert forall|j: int| 0 <= j < ws[k].len() implies !is_whitespace(#[trigger] ws[k][j]) by {}
    }
    lemma_stripped_words_solid(ws);
    let sw = stripped_words(ws);
    assert forall|k: int, j: int| 0 <= k < sw.len() && 0 <= j < sw[k].len() implies !is_whitespace(
        #[trigger] sw[k][j],
    ) by {
        assert(has_no_whitespace(sw[k]));
    }
    lemma_join_single_spaced(sw);
}

/// No field code is left to remove in a command whose field codes were
/// removed: every `%` that is left is an escaped `%%` or is not followed by
/// a field code letter.
pub proof fn law_no_field_code_is_left(line: Seq<char>)
    ensures
        strip_codes(exec_without_field_codes(line)) == exec_without_field_codes(line),
{
    lemma_words_solid(line);
    let ws = words(line);
    assert forall|k: int| 0 <= k < ws.len() implies has_no_whitespace(#[trigger] ws[k]) by {
        assert forall|j: int| 0 <= j < ws[k].len() implies !is_whitespace(#[trigger] ws[k][j]) by {}
    }
    lemma_stripped_words_solid(ws);
    let sw = stripped_words(ws);
    lemma_strip_codes_join(sw);
    assert(sw.map_values(|w: Seq<char>| strip_codes(w)) =~= sw);
}

/// Removing field codes twice changes nothing.
pub proof fn law_removing_field_codes_twice_changes_nothing(line: Seq<char>)
    ensures
        exec_without_field_codes(exec_without_field_codes(line)) == exec_without_field_codes(line),
{
    lemma_words_solid(line);
    let ws = words(line);
    assert forall|k: int| 0 <= k < ws.len() implies has_no_whitespace(#[trigger] ws[k]) by {
        assert forall|j: int| 0 <= j < ws[k].len() implies !is_whitespace(#[trigger] ws[k][j]) by {}
    }
    lemma_stripped_words_solid(ws);
    let sw = stripped_words(ws);
    lemma_words_of_join(sw);
    lemma_stripped_words_fixed(sw);
}

} // verus!
