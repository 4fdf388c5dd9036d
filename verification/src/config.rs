//! Profiles of `~/.config/nvg/config.toml`: which API and token each
//! command uses, and how login and logout change them.

use vstd::prelude::*;
use crate::cli::opt_str;

verus! {

/// The API used by a profile that names none.
pub open spec fn default_api_url_spec() -> Seq<char> {
    "https://app.navegante.app"@
}

/// The profile used when neither `--profile` nor the file names one.
pub open spec fn default_profile_name_spec() -> Seq<char> {
    "default"@
}

pub fn default_api_url() -> (s: String)
    ensures
        s@ == default_api_url_spec(),
{
    String::from_str("https://app.navegante.app")
}

pub fn default_profile_name() -> (s: String)
    ensures
        s@ == default_profile_name_spec(),
{
    String::from_str("default")
}

/// One named profile of the config file.
pub struct Profile {
    pub api_url: Option<String>,
    pub token: Option<String>,
}

pub struct ProfileView {
    pub api_url: Option<Seq<char>>,
    pub token: Option<Seq<char>>,
}

impl View for Profile {
    type V = ProfileView;

    open spec fn view(&self) -> ProfileView {
        ProfileView { api_url: opt_str(self.api_url), token: opt_str(self.token) }
    }
}

/// The config file: the default profile's name and the profiles by name.
/// A name that occurs twice in `profiles` means its first occurrence.
pub struct Config {
    pub default_profile: Option<String>,
    pub profiles: Vec<(String, Profile)>,
}

pub struct ConfigView {
    pub default_profile: Option<Seq<char>>,
    pub profiles: Map<Seq<char>, ProfileView>,
}

/// Resolved values used by every command.
pub struct ResolvedProfile {
    pub name: String,
    pub api_url: String,
    pub token: Option<String>,
}

pub struct ResolvedView {
    pub name: Seq<char>,
    pub api_url: Seq<char>,
    pub token: Option<Seq<char>>,
}

impl View for ResolvedProfile {
    type V = ResolvedView;

    open spec fn view(&self) -> ResolvedView {
        ResolvedView { name: self.name@, api_url: self.api_url@, token: opt_str(self.token) }
    }
}

/// Index of the first entry named `name` among the first `n` entries.
pub open spec fn first_named(entries: Seq<(String, Profile)>, name: Seq<char>, n: int) -> Option<
    int,
>
    decreases n,
{
    if n <= 0 {
        None
    } else {
        match first_named(entries, name, n - 1) {
            Some(i) => Some(i),
            None => if entries[n - 1].0@ == name {
                Some(n - 1)
            } else {
                None
            },
        }
    }
}

pub proof fn lemma_first_named(entries: Seq<(String, Profile)>, name: Seq<char>, n: int)
    requires
        0 <= n <= entries.len(),
    ensures
        match first_named(entries, name, n) {
            Some(i) => 0 <= i < n && entries[i].0@ == name && forall|j: int|
                0 <= j < i ==> #[trigger] entries[j].0@ != name,
            None => forall|j: int| 0 <= j < n ==> #[trigger] entries[j].0@ != name,
        },
    decreases n,
{
    if n > 0 {
        lemma_first_named(entries, name, n - 1);
    }
}

/// Only the names of the entries decide where a name is found.
pub proof fn lemma_first_named_same_names(
    a: Seq<(String, Profile)>,
    b: Seq<(String, Profile)>,
    name: Seq<char>,
    n: int,
)
    requires
        0 <= n <= a.len(),
        n <= b.len(),
        forall|j: int| 0 <= j < n ==> #[trigger] a[j].0@ == b[j].0@,
    ensures
        first_named(a, name, n) == first_named(b, name, n),
    decreases n,
{
    if n > 0 {
        lemma_first_named_same_names(a, b, name, n - 1);
    }
}

impl Config {
    pub open spec fn entry_index(&self, name: Seq<char>) -> Option<int> {
        first_named(self.profiles@, name, self.profiles@.len() as int)
    }

    /// No name occurs twice.
    pub open spec fn wf(&self) -> bool {
        forall|i: int, j: int|
            0 <= i < j < self.profiles@.len() ==> #[trigger] self.profiles@[i].0@
                != #[trigger] self.profiles@[j].0@
    }
}

impl View for Config {
    type V = ConfigView;

    open spec fn view(&self) -> ConfigView {
        ConfigView {
            default_profile: opt_str(self.default_profile),
            profiles: Map::new(
                |k: Seq<char>| self.entry_index(k) is Some,
                |k: Seq<char>| self.profiles@[self.entry_index(k)->0].1@,
            ),
        }
    }
}

impl ConfigView {
    /// The profile name a command uses: `--profile`, else the file's default,
    /// else `default`.
    pub open spec fn active_name(self, profile_override: Option<Seq<char>>) -> Seq<char> {
        match profile_override {
            Some(n) => n,
            None => match self.default_profile {
                Some(d) => d,
                None => default_profile_name_spec(),
            },
        }
    }

    /// The values a command uses, missing ones taken from the defaults.
    pub open spec fn resolve(self, profile_override: Option<Seq<char>>) -> ResolvedView {
        let name = self.active_name(profile_override);
        let p = if self.profiles.contains_key(name) {
            self.profiles[name]
        } else {
            ProfileView { api_url: None, token: None }
        };
        ResolvedView {
            name,
            api_url: match p.api_url {
                Some(u) => u,
                None => default_api_url_spec(),
            },
            token: p.token,
        }
    }

    /// The config after storing `api_url` and `token` under `name`, which also
    /// becomes the default when no default is set.
    pub open spec fn with_profile(self, name: Seq<char>, api_url: Seq<char>, token: Option<
        Seq<char>,
    >) -> ConfigView {
        ConfigView {
            default_profile: match self.default_profile {
                Some(d) => Some(d),
                None => Some(name),
            },
            profiles: self.profiles.insert(name, ProfileView { api_url: Some(api_url), token }),
        }
    }

    /// The config after forgetting the token of `name`, if that profile exists.
    pub open spec fn without_token(self, name: Seq<char>) -> ConfigView {
        if self.profiles.contains_key(name) {
            ConfigView {
                default_profile: self.default_profile,
                profiles: self.profiles.insert(
                    name,
                    ProfileView { api_url: self.profiles[name].api_url, token: None },
                ),
            }
        } else {
            self
        }
    }
}

fn clone_opt(o: &Option<String>) -> (r: Option<String>)
    ensures
        opt_str(r) == opt_str(*o),
{
    match o {
        Some(s) => Some(s.clone()),
        None => None,
    }
}

impl Config {
    /// An empty config: no default profile, no profiles.
    pub fn new() -> (c: Config)
        ensures
            c@.default_profile is None,
            c@.profiles == Map::<Seq<char>, ProfileView>::empty(),
            c.wf(),
    {
        let c = Config { default_profile: None, profiles: Vec::new() };
        assert(c@.profiles =~= Map::<Seq<char>, ProfileView>::empty());
        c
    }

    /// Position of the profile named `name`.
    fn find(&self, name: &String) -> (r: Option<usize>)
        ensures
            match r {
                Some(i) => self.entry_index(name@) == Some(i as int) && i < self.profiles@.len(),
                None => self.entry_index(name@) is None,
            },
    {
        let n = self.profiles.len();
        let mut i: usize = 0;
        while i < n
            invariant
                n == self.profiles@.len(),
                i <= n,
                first_named(self.profiles@, name@, i as int) is None,
            decreases n - i,
        {
            if self.profiles[i].0 == *name {
                proof {
                    lemma_first_named(self.profiles@, name@, i as int);
                    lemma_first_named(self.profiles@, name@, n as int);
                    assert(first_named(self.profiles@, name@, i + 1) == Some(i as int));
                    if first_named(self.profiles@, name@, n as int) != Some(i as int) {
                        let j = first_named(self.profiles@, name@, n as int)->0;
                        assert(j < i || j > i);
                    }
                }
                return Some(i);
            }
            i = i + 1;
        }
        None
    }

    /// Resolve the active profile, honoring an explicit `--profile` override.
    /// Falls back to defaults when the file or profile is missing.
    pub fn resolve(&self, profile_override: Option<&str>) -> (r: ResolvedProfile)
        ensures
            r@ == self@.resolve(
                match profile_override {
                    Some(s) => Some(s@),
                    None => None,
                },
            ),
    {
        let name = match profile_override {
            Some(s) => String::from_str(s),
            None => match &self.default_profile {
                Some(d) => d.clone(),
                None => default_profile_name(),
            },
        };
        let ghost key = name@;
        let (api_url, token) = match self.find(&name) {
            Some(i) => {
                assert(self@.profiles.contains_key(key));
                (clone_opt(&self.profiles[i].1.api_url), clone_opt(&self.profiles[i].1.token))
            },
            None => {
                assert(!self@.profiles.contains_key(key));
                (None, None)
            },
        };
        let api_url = match api_url {
            Some(u) => u,
            None => default_api_url(),
        };
        ResolvedProfile { name, api_url, token }
    }

    /// Set the api_url and token for the named profile, also marking it as the
    /// default if no default is currently set.
    pub fn set_profile(&mut self, name: &str, api_url: &str, token: Option<String>)
        ensures
            final(self)@ == old(self)@.with_profile(name@, api_url@, opt_str(token)),
            old(self).wf() ==> final(self).wf(),
    {
        let key = String::from_str(name);
        let ghost before = self.profiles@;
        let profile = Profile { api_url: Some(String::from_str(api_url)), token };
        match self.find(&key) {
            Some(i) => {
                proof {
                    lemma_first_named(before, key@, before.len() as int);
                }
                self.profiles.set(i, (key, profile));
                proof {
                    let after = self.profiles@;
                    assert forall|k: Seq<char>| #[trigger]
                        first_named(after, k, after.len() as int) == first_named(
                            before,
                            k,
                            before.len() as int,
                        ) by {
                        lemma_first_named_same_names(after, before, k, after.len() as int);
                    }
                    assert forall|k: Seq<char>|
                        #![trigger self@.profiles.contains_key(k)]
                        self@.profiles.contains_key(k) && k != name@ implies self@.profiles[k]
                        == old(self)@.profiles[k] by {
                        lemma_first_named(before, k, before.len() as int);
                    }
                }
            },
            None => {
                proof {
                    lemma_first_named(before, key@, before.len() as int);
                }
                self.profiles.push((key, profile));
                proof {
                    let after = self.profiles@;
                    assert forall|k: Seq<char>| #[trigger]
                        first_named(after, k, after.len() as int) == if k == name@ {
                            Some(before.len() as int)
                        } else {
                            first_named(before, k, before.len() as int)
                        } by {
                        assert(after.len() == before.len() + 1);
                        assert forall|j: int| 0 <= j < before.len() implies #[trigger] after[j].0@
                            == before[j].0@ by {
                            assert(after[j] == before[j]);
                        }
                        lemma_first_named_same_names(after, before, k, before.len() as int);
                        lemma_first_named(before, k, before.len() as int);
                    }
                    assert forall|k: Seq<char>|
                        #![trigger self@.profiles.contains_key(k)]
                        self@.profiles.contains_key(k) && k != name@ implies self@.profiles[k]
                        == old(self)@.profiles[k] by {
                        lemma_first_named(before, k, before.len() as int);
                        assert(after[first_named(before, k, before.len() as int)->0] == before[first_named(before, k, before.len() as int)->0]);
                    }
                }
            },
        }
        proof {
            let pv = ProfileView { api_url: Some(api_url@), token: opt_str(token) };
            assert(self.entry_index(name@) is Some);
            assert(self.profiles@[self.entry_index(name@)->0].1@ == pv);
            assert(self@.profiles.contains_key(name@));
            assert(self@.profiles[name@] == pv);
            assert forall|k: Seq<char>|
                self@.profiles.contains_key(k) <==> old(self)@.profiles.insert(
                    name@,
                    pv,
                ).contains_key(k) by {
                lemma_first_named(self.profiles@, k, self.profiles@.len() as int);
                lemma_first_named(before, k, before.len() as int);
                if k != name@ && old(self)@.profiles.contains_key(k) {
                    let j = first_named(before, k, before.len() as int)->0;
                    assert(self.profiles@[j].0@ == k);
                }
            }
            assert(self@.profiles =~= old(self)@.profiles.insert(name@, pv));
        }
        let ghost mid = self.profiles@;
        if self.default_profile.is_none() {
            self.default_profile = Some(String::from_str(name));
        }
        assert(self.profiles@ == mid);
        assert(self@.profiles == old(self)@.with_profile(name@, api_url@, opt_str(token)).profiles);
    }

    /// Clear the token for the named profile, leaving the api_url intact.
    pub fn clear_token(&mut self, name: &str)
        ensures
            final(self)@ == old(self)@.without_token(name@),
            old(self).wf() ==> final(self).wf(),
    {
        let key = String::from_str(name);
        let ghost before = self.profiles@;
        match self.find(&key) {
            Some(i) => {
                proof {
                    lemma_first_named(before, key@, before.len() as int);
                }
                let api_url = clone_opt(&self.profiles[i].1.api_url);
                self.profiles.set(i, (key, Profile { api_url, token: None }));
                proof {
                    let after = self.profiles@;
                    assert forall|k: Seq<char>| #[trigger]
                        first_named(after, k, after.len() as int) == first_named(
                            before,
                            k,
                            before.len() as int,
                        ) by {
                        lemma_first_named_same_names(after, before, k, after.len() as int);
                    }
                    assert forall|k: Seq<char>|
                        #![trigger self@.profiles.contains_key(k)]
                        self@.profiles.contains_key(k) && k != name@ implies self@.profiles[k]
                        == old(self)@.profiles[k] by {
                        lemma_first_named(before, k, before.len() as int);
                    }
                }
                assert(self@.profiles =~= old(self)@.without_token(name@).profiles);
            },
            None => {
                assert(self@.profiles =~= old(self)@.profiles);
            },
        }
    }
}

/// After `login` stores a token under a profile, that profile resolves to
/// exactly the API and token stored.
pub proof fn law_login_then_resolve(
    c: ConfigView,
    name: Seq<char>,
    api_url: Seq<char>,
    token: Option<Seq<char>>,
)
    ensures
        c.with_profile(name, api_url, token).resolve(Some(name)) == (ResolvedView {
            name,
            api_url,
            token,
        }),
{
}

/// The first profile stored into a config without a default becomes the one
/// that commands use when no `--profile` is given.
pub proof fn law_first_profile_becomes_default(
    c: ConfigView,
    name: Seq<char>,
    api_url: Seq<char>,
    token: Option<Seq<char>>,
)
    requires
        c.default_profile is None,
    ensures
        c.with_profile(name, api_url, token).resolve(None) == (ResolvedView {
            name,
            api_url,
            token,
        }),
{
}

/// Storing a profile changes what no other profile resolves to.
pub proof fn law_store_keeps_other_profiles(
    c: ConfigView,
    name: Seq<char>,
    api_url: Seq<char>,
    token: Option<Seq<char>>,
    other: Seq<char>,
)
    requires
        other != name,
    ensures
        c.with_profile(name, api_url, token).resolve(Some(other)) == c.resolve(Some(other)),
{
}

/// After `logout` clears a profile's token, the profile resolves without a
/// token and with the API it had before.
pub proof fn law_logout_clears_token(c: ConfigView, name: Seq<char>)
    ensures
        c.without_token(name).resolve(Some(name)).token is None,
        c.without_token(name).resolve(Some(name)).api_url == c.resolve(Some(name)).api_url,
        c.without_token(name).resolve(Some(name)).name == name,
{
}

/// Clearing one profile's token changes nothing for commands that use another
/// profile.
pub proof fn law_logout_keeps_other_profiles(
    c: ConfigView,
    name: Seq<char>,
    profile_override: Option<Seq<char>>,
)
    requires
        c.active_name(profile_override) != name,
    ensures
        c.without_token(name).resolve(profile_override) == c.resolve(profile_override),
{
}

/// A profile missing from the file resolves to the default API and no token.
pub proof fn law_missing_profile_uses_defaults(c: ConfigView, profile_override: Option<Seq<char>>)
    requires
        !c.profiles.contains_key(c.active_name(profile_override)),
    ensures
        c.resolve(profile_override).api_url == default_api_url_spec(),
        c.resolve(profile_override).token is None,
{
}

} // verus!
