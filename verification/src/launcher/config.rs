//! The launcher's configuration: its search bar, which providers it
//! offers, and the settings of each provider.

use vstd::prelude::*;

verus! {

broadcast use vstd::string::group_string_axioms;

/// Clones a list of strings.
pub fn clone_strings(v: &Vec<String>) -> (r: Vec<String>)
    ensures
        r@ == v@,
{
    let mut r: Vec<String> = Vec::new();
    let mut i: usize = 0;
    while i < v.len()
        invariant
            i <= v@.len(),
            r@ == v@.take(i as int),
        decreases v@.len() - i,
    {
        r.push(v[i].clone());
        assert(v@.take(i + 1) == v@.take(i as int).push(v@[i as int]));
        i += 1;
    }
    assert(v@.take(v@.len() as int) == v@);
    r
}

/// Clones an optional string.
pub fn clone_opt_string(o: &Option<String>) -> (r: Option<String>)
    ensures
        r == *o,
{
    match o {
        Some(s) => Some(s.clone()),
        None => None,
    }
}

/// Settings of the applications provider.
pub struct ApplicationProviderConfig {
    /// Command that terminal applications are started with.
    pub terminal_cmd: Option<String>,
    /// Whether started applications leave the launcher's session.
    pub detach: bool,
}

impl Clone for ApplicationProviderConfig {
    fn clone(&self) -> (r: Self)
        ensures
            r == *self,
    {
        ApplicationProviderConfig { terminal_cmd: clone_opt_string(&self.terminal_cmd), detach: self.detach }
    }
}

impl Default for ApplicationProviderConfig {
    fn default() -> (r: Self)
        ensures
            r.terminal_cmd is None,
            !r.detach,
    {
        ApplicationProviderConfig { terminal_cmd: None, detach: false }
    }
}

/// Settings of the wallpapers provider.
pub struct WallpapersProviderConfig {
    /// The directory searched for wallpapers.
    pub path: String,
    /// The command that sets a wallpaper; `{{image}}` in it stands for the
    /// image's path.
    pub change_command: String,
    /// Whether `matugen` derives a color scheme from a chosen wallpaper.
    pub matugen: bool,
    /// Flags passed to `matugen`.
    pub matugen_flags: Vec<String>,
}

impl Clone for WallpapersProviderConfig {
    fn clone(&self) -> (r: Self)
        ensures
            r.path == self.path,
            r.change_command == self.change_command,
            r.matugen == self.matugen,
            r.matugen_flags@ == self.matugen_flags@,
    {
        WallpapersProviderConfig {
            path: self.path.clone(),
            change_command: self.change_command.clone(),
            matugen: self.matugen,
            matugen_flags: clone_strings(&self.matugen_flags),
        }
    }
}

impl Default for WallpapersProviderConfig {
    fn default() -> (r: Self)
        ensures
            r.path@ == Seq::<char>::empty(),
            r.change_command@ == Seq::<char>::empty(),
            !r.matugen,
            r.matugen_flags@.len() == 0,
    {
        WallpapersProviderConfig {
            path: String::new(),
            change_command: String::new(),
            matugen: false,
            matugen_flags: Vec::new(),
        }
    }
}

/// The command that a configuration without one sets wallpapers with.
pub fn default_change_command() -> (r: String)
    ensures
        r@ == "awww img {{image}}"@,
{
    "awww img {{image}}".to_owned()
}

/// The providers that the launcher can offer.
#[derive(Debug, Clone, Copy, PartialEq, Eq, Hash, Structural)]
pub enum ProviderVariant {
    Applications,
    Wallpapers,
}

/// The providers that the launcher offers, each at most once, in order.
pub struct ProviderList {
    variants: Vec<ProviderVariant>,
}

impl ProviderList {
    /// No provider is listed twice.
    #[verifier::type_invariant]
    spec fn no_duplicates(self) -> bool {
        self.variants@.no_duplicates()
    }

    /// The listed providers, in order.
    pub closed spec fn view_seq(self) -> Seq<ProviderVariant> {
        self.variants@
    }

    /// The list of the given providers, each kept at its first place.
    pub fn new(given: &Vec<ProviderVariant>) -> (r: Self)
        ensures
            r.view_seq().no_duplicates(),
            r.view_seq().to_set() == given@.to_set(),
    {
        let mut variants: Vec<ProviderVariant> = Vec::new();
        let mut i: usize = 0;
        while i < given.len()
            invariant
                i <= given@.len(),
                variants@.no_duplicates(),
                variants@.to_set() == given@.take(i as int).to_set(),
            decreases given@.len() - i,
        {
            let v = given[i];
            let mut seen = false;
            let mut j: usize = 0;
            while j < variants.len()
                invariant
                    j <= variants@.len(),
                    seen == variants@.take(j as int).contains(v),
                decreases variants@.len() - j,
            {
                if variants[j] == v {
                    seen = true;
                }
                proof {
                    let s = variants@.take(j as int);
                    let s2 = variants@.take(j + 1);
                    assert(s2 == s.push(variants@[j as int]));
                    if variants@[j as int] == v {
                        assert(s2[j as int] == v);
                    }
                    if s.contains(v) {
                        let k = choose|k: int| 0 <= k < s.len() && s[k] == v;
                        assert(s2[k] == v);
                    }
                    if s2.contains(v) && variants@[j as int] != v {
                        let k = choose|k: int| 0 <= k < s2.len() && s2[k] == v;
                        assert(k < j);
                        assert(s[k] == v);
                    }
                }
                j += 1;
            }
            assert(variants@.take(variants@.len() as int) == variants@);
            assert(given@.take(i + 1) == given@.take(i as int).push(v));
            let ghost before = variants@;
            assert(forall|a: ProviderVariant| before.to_set().contains(a) <==> before.contains(a));
            assert(forall|a: ProviderVariant| #[trigger] before.contains(a) <==> given@.take(i as int).contains(a)) by {
                assert forall|a: ProviderVariant| #[trigger] before.contains(a) implies given@.take(i as int).contains(a) by {
                    assert(before.to_set().contains(a));
                }
                assert forall|a: ProviderVariant| #[trigger] given@.take(i as int).contains(a) implies before.contains(a) by {
                    assert(given@.take(i as int).to_set().contains(a));
                }
            }
            if !seen {
                variants.push(v);
                assert forall|a: ProviderVariant| variants@.contains(a) <==> before.contains(a) || a == v by {
                    if a == v {
                        assert(variants@[variants@.len() - 1] == v);
                    }
                    if before.contains(a) {
                        let k = choose|k: int| 0 <= k < before.len() && before[k] == a;
                        assert(variants@[k] == a);
                    }
                }
            }
            assert forall|a: ProviderVariant| given@.take(i + 1).contains(a) <==> given@.take(i as int).contains(a) || a == v by {
                let s = given@.take(i as int);
                if a == v {
                    assert(given@.take(i + 1)[i as int] == v);
                }
                if s.contains(a) {
                    let k = choose|k: int| 0 <= k < s.len() && s[k] == a;
                    assert(given@.take(i + 1)[k] == a);
                }
            }
            assert(forall|a: ProviderVariant| #[trigger] variants@.contains(a) <==> before.contains(a) || a == v);
            assert(variants@.to_set() =~= given@.take(i + 1).to_set());
            i += 1;
        }
        assert(given@.take(given@.len() as int) == given@);
        ProviderList { variants }
    }

    /// The listed providers, in order.
    pub fn variants(&self) -> (r: &Vec<ProviderVariant>)
        ensures
            r@ == self.view_seq(),
            r@.no_duplicates(),
    {
        proof {
            use_type_invariant(self);
        }
        &self.variants
    }
}

impl Default for ProviderList {
    fn default() -> (r: Self)
        ensures
            r.view_seq().len() == 0,
    {
        ProviderList { variants: Vec::new() }
    }
}

/// Settings of the launcher.
pub struct LauncherConfig {
    pub searchbar_placeholder: String,
    pub providers: ProviderList,
    pub applications_provider_config: ApplicationProviderConfig,
    pub wallpapers_provider_config: WallpapersProviderConfig,
}

impl Default for LauncherConfig {
    fn default() -> (r: Self)
        ensures
            r.searchbar_placeholder@ == Seq::<char>::empty(),
            r.providers.view_seq().len() == 0,
            r.applications_provider_config.terminal_cmd is None,
            !r.applications_provider_config.detach,
            r.wallpapers_provider_config.path@ == Seq::<char>::empty(),
            r.wallpapers_provider_config.change_command@ == Seq::<char>::empty(),
            !r.wallpapers_provider_config.matugen,
            r.wallpapers_provider_config.matugen_flags@.len() == 0,
    {
        LauncherConfig {
            searchbar_placeholder: String::new(),
            providers: ProviderList::default(),
            applications_provider_config: ApplicationProviderConfig::default(),
            wallpapers_provider_config: WallpapersProviderConfig::default(),
        }
    }
}

/// A provider to create, with its settings.
pub enum ProviderInstance {
    Applications(ApplicationProviderConfig),
    Wallpapers(WallpapersProviderConfig),
}

/// Whether `p` is the provider `variant` created with the settings of `config`.
pub open spec fn instance_of(p: ProviderInstance, variant: ProviderVariant, config: LauncherConfig) -> bool {
    match variant {
        ProviderVariant::Applications => p == ProviderInstance::Applications(config.applications_provider_config),
        ProviderVariant::Wallpapers => match p {
            ProviderInstance::Wallpapers(w) => {
                &&& w.path == config.wallpapers_provider_config.path
                &&& w.change_command == config.wallpapers_provider_config.change_command
                &&& w.matugen == config.wallpapers_provider_config.matugen
                &&& w.matugen_flags@ == config.wallpapers_provider_config.matugen_flags@
            },
            _ => false,
        },
    }
}

impl LauncherConfig {
    /// The providers to create, one for each listed provider and in the
    /// listed order, each with its settings.
    pub fn instantiate_providers(self) -> (r: Vec<ProviderInstance>)
        ensures
            r@.len() == self.providers.view_seq().len(),
            forall|i: int|
                0 <= i < r@.len() ==> instance_of(#[trigger] r@[i], self.providers.view_seq()[i], self),
    {
        let variants = self.providers.variants();
        let mut instances: Vec<ProviderInstance> = Vec::new();
        let mut i: usize = 0;
        while i < variants.len()
            invariant
                i <= variants@.len(),
                variants@ == self.providers.view_seq(),
                instances@.len() == i,
                forall|k: int| 0 <= k < i ==> instance_of(#[trigger] instances@[k], variants@[k], self),
            decreases variants@.len() - i,
        {
            let instance = match variants[i] {
                ProviderVariant::Applications => ProviderInstance::Applications(
                    self.applications_provider_config.clone(),
                ),
                ProviderVariant::Wallpapers => ProviderInstance::Wallpapers(
                    self.wallpapers_provider_config.clone(),
                ),
            };
            instances.push(instance);
            i += 1;
        }
        instances
    }
}

} // verus!
