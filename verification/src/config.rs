use vstd::prelude::*;

verus! {

/// The tracker's configuration, as read from `config.toml`.
#[derive(Debug, Clone)]
pub struct Config {
    pub general: GeneralConfig,
    pub blacklist: BlacklistConfig,
    pub work_apps: WorkAppsConfig,
}

/// General settings: where the usage log lives and the timeouts.
#[derive(Debug, Clone)]
pub struct GeneralConfig {
    pub database_path: String,
    /// Seconds without window activity after which the user counts as idle.
    pub idle_timeout: u64,
    /// Seconds of grace before a window session is worth logging.
    pub grace_period: u64,
}

/// Applications that are blocked while a focus session runs.
#[derive(Debug, Clone)]
pub struct BlacklistConfig {
    pub apps: Vec<String>,
    pub block_during_focus: bool,
}

/// Applications that count as work.
#[derive(Debug, Clone)]
pub struct WorkAppsConfig {
    pub apps: Vec<String>,
}

/// `path` with a leading `~/` replaced by the home directory: the `~` is
/// replaced by `home` and the rest stays. Any other path is kept as it is.
pub open spec fn expand_home(path: Seq<char>, home: Seq<char>) -> Seq<char> {
    if path.len() >= 2 && path[0] == '~' && path[1] == '/' {
        home + path.skip(1)
    } else {
        path
    }
}

/// Whether one of `names` reads exactly `name`.
pub open spec fn names_contain(names: Seq<String>, name: Seq<char>) -> bool {
    exists|i: int| 0 <= i < names.len() && #[trigger] names[i]@ == name
}

/// Whether `names` holds a name that reads exactly `name`.
pub fn contains_name(names: &Vec<String>, name: &String) -> (found: bool)
    ensures
        found == names_contain(names@, name@),
{
    let mut i: usize = 0;
    while i < names.len()
        invariant
            i <= names.len(),
            forall|j: int| 0 <= j < i ==> #[trigger] names@[j]@ != name@,
        decreases names.len() - i,
    {
        if names[i] == *name {
            assert(names@[i as int]@ == name@);
            return true;
        }
        i = i + 1;
    }
    false
}

impl Config {
    /// The configuration written on first start, when no file exists yet.
    pub fn default_config() -> (config: Config)
        ensures
            config.general.database_path@ == "~/.local/share/otrack/usage.db"@,
            config.general.idle_timeout == 300,
            config.general.grace_period == 30,
            config.blacklist.apps@.len() == 3,
            config.blacklist.apps@[0]@ == "discord"@,
            config.blacklist.apps@[1]@ == "slack"@,
            config.blacklist.apps@[2]@ == "spotify"@,
            config.blacklist.block_during_focus,
            config.work_apps.apps@.len() == 3,
            config.work_apps.apps@[0]@ == "foot"@,
            config.work_apps.apps@[1]@ == "neovim"@,
            config.work_apps.apps@[2]@ == "zed"@,
    {
        let mut blacklisted: Vec<String> = Vec::new();
        blacklisted.push(String::from_str("discord"));
        blacklisted.push(String::from_str("slack"));
        blacklisted.push(String::from_str("spotify"));
        let mut work: Vec<String> = Vec::new();
        work.push(String::from_str("foot"));
        work.push(String::from_str("neovim"));
        work.push(String::from_str("zed"));
        Config {
            general: GeneralConfig {
                database_path: String::from_str("~/.local/share/otrack/usage.db"),
                idle_timeout: 300,
                grace_period: 30,
            },
            blacklist: BlacklistConfig { apps: blacklisted, block_during_focus: true },
            work_apps: WorkAppsConfig { apps: work },
        }
    }

    /// The usage database's path, with a leading `~/` expanded to `home`
    /// (the caller reads `$HOME`, and passes `""` where it is unset).
    pub fn db_path(&self, home: &str) -> (path: String)
        ensures
            path@ == expand_home(self.general.database_path@, home@),
    {
        let raw = self.general.database_path.as_str();
        let len = raw.unicode_len();
        if len >= 2 && raw.get_char(0) == '~' && raw.get_char(1) == '/' {
            let mut path = String::from_str(home);
            path.append(raw.substring_char(1, len));
            assert(path@ =~= expand_home(self.general.database_path@, home@));
            path
        } else {
            self.general.database_path.clone()
        }
    }

    /// Whether `app_class` is on the focus blacklist.
    pub fn is_blacklisted(&self, app_class: &String) -> (listed: bool)
        ensures
            listed == names_contain(self.blacklist.apps@, app_class@),
    {
        contains_name(&self.blacklist.apps, app_class)
    }
}

/// Lookup of a name is plain, case-sensitive equality with a listed name:
/// no list holds a name, a list holds each name put on it, and adding a name
/// to a list adds exactly that name.
pub proof fn law_names_contain(names: Seq<String>, s: String, name: Seq<char>)
    ensures
        !names_contain(Seq::empty(), name),
        names_contain(seq![s], s@),
        names_contain(names.push(s), s@),
        names_contain(names.push(s), name) <==> (names_contain(names, name) || s@ == name),
        names_contain(seq![s], name) <==> s@ == name,
{
    let pushed = names.push(s);
    assert(pushed[names.len() as int] == s);
    assert(seq![s][0] == s);
    if names_contain(names, name) {
        let i = choose|i: int| 0 <= i < names.len() && #[trigger] names[i]@ == name;
        assert(pushed[i] == names[i]);
    }
    if names_contain(pushed, name) {
        let i = choose|i: int| 0 <= i < pushed.len() && #[trigger] pushed[i]@ == name;
        if i < names.len() {
            assert(pushed[i] == names[i]);
        }
    }
}

} // verus!
