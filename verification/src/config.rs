//! Configuration files: what they hold, their defaults, and where they
//! live.
use vstd::prelude::*;

use crate::paths::{join_path, join_path_seq};
use crate::text::{owned, str_eq, string_of};

verus! {

/// The directory name under the configuration root.
pub const APP_NAME: &'static str = "ps";

/// The managed configuration files, and their directory.
#[derive(Clone, Copy, PartialEq, Eq, Debug, Structural)]
pub enum ConfigFile {
    Commands,
    Paths,
    Settings,
    Workspaces,
    Dir,
}

/// A custom shortcut.
#[derive(Clone, Debug)]
pub enum ShortcutCommand {
    /// Stops the process listening on a TCP port.
    KillPort { description: Option<String> },
    /// Changes to a directory and opens further windows.
    Workspace { description: Option<String>, path: String, open_windows: Vec<String> },
    /// Runs a PowerShell script, given inline, as a file, or both.
    Shell {
        description: Option<String>,
        script: Option<String>,
        script_path: Option<String>,
        dot_source: bool,
    },
}

/// Script files run by shell shortcuts are dot-sourced unless a shortcut
/// says otherwise.
pub fn default_dot_source() -> (r: bool)
    ensures
        r,
{
    true
}

/// The shortcuts, each name once, in the order they were added.
pub struct CommandsConfig {
    version: u8,
    commands: Vec<(String, ShortcutCommand)>,
}

/// The names of a list of entries.
pub open spec fn entry_names(e: Seq<(String, ShortcutCommand)>) -> Seq<Seq<char>> {
    e.map_values(|x: (String, ShortcutCommand)| x.0@)
}

pub open spec fn unique_names(n: Seq<Seq<char>>) -> bool {
    forall|i: int, j: int| 0 <= i < n.len() && 0 <= j < n.len() && i != j ==> n[i] != n[j]
}

/// The command of the entry named `name`, if there is one.
pub open spec fn lookup_command(e: Seq<(String, ShortcutCommand)>, name: Seq<char>) -> Option<
    ShortcutCommand,
>
    decreases e.len(),
{
    if e.len() == 0 {
        None
    } else if e[0].0@ == name {
        Some(e[0].1)
    } else {
        lookup_command(e.drop_first(), name)
    }
}

proof fn lemma_lookup_index(e: Seq<(String, ShortcutCommand)>, name: Seq<char>, i: int)
    requires
        0 <= i < e.len(),
        e[i].0@ == name,
        unique_names(entry_names(e)),
    ensures
        lookup_command(e, name) == Some(e[i].1),
    decreases e.len(),
{
    if i > 0 {
        assert(entry_names(e)[0] == e[0].0@);
        assert(entry_names(e)[i] == e[i].0@);
        let t = e.drop_first();
        assert forall|a: int, b: int|
            0 <= a < entry_names(t).len() && 0 <= b < entry_names(t).len() && a != b implies entry_names(
            t,
        )[a] != entry_names(t)[b] by {
            assert(entry_names(t)[a] == entry_names(e)[a + 1]);
            assert(entry_names(t)[b] == entry_names(e)[b + 1]);
        }
        lemma_lookup_index(t, name, i - 1);
    }
}

proof fn lemma_lookup_absent(e: Seq<(String, ShortcutCommand)>, name: Seq<char>)
    requires
        !entry_names(e).contains(name),
    ensures
        lookup_command(e, name) is None,
    decreases e.len(),
{
    if e.len() > 0 {
        assert(entry_names(e)[0] == e[0].0@);
        assert(!entry_names(e.drop_first()).contains(name)) by {
            if entry_names(e.drop_first()).contains(name) {
                let k = choose|k: int|
                    0 <= k < entry_names(e.drop_first()).len() && entry_names(e.drop_first())[k]
                        == name;
                assert(entry_names(e)[k + 1] == name);
            }
        }
        lemma_lookup_absent(e.drop_first(), name);
    }
}

/// The configuration used when the file leaves fields out: version 1 and
/// no shortcuts.
impl Default for CommandsConfig {
    fn default() -> (c: CommandsConfig)
        ensures
            c.version_spec() == 1,
            c.entries() == Seq::<(String, ShortcutCommand)>::empty(),
    {
        CommandsConfig::new(1)
    }
}

impl CommandsConfig {
    #[verifier::type_invariant]
    spec fn names_unique(self) -> bool {
        unique_names(entry_names(self.commands@))
    }

    /// The entries, in order.
    pub closed spec fn entries(&self) -> Seq<(String, ShortcutCommand)> {
        self.commands@
    }

    pub closed spec fn version_spec(&self) -> u8 {
        self.version
    }

    /// An empty configuration with the given format version.
    pub fn new(version: u8) -> (c: CommandsConfig)
        ensures
            c.version_spec() == version,
            c.entries() == Seq::<(String, ShortcutCommand)>::empty(),
    {
        CommandsConfig { version, commands: Vec::new() }
    }

    /// The format version.
    pub fn version(&self) -> (v: u8)
        ensures
            v == self.version_spec(),
    {
        self.version
    }

    /// The number of shortcuts.
    pub fn len(&self) -> (n: usize)
        ensures
            n == self.entries().len(),
    {
        self.commands.len()
    }

    /// Whether there are no shortcuts.
    pub fn is_empty(&self) -> (r: bool)
        ensures
            r == (self.entries().len() == 0),
    {
        self.commands.len() == 0
    }

    /// The entry at `i`.
    pub fn entry(&self, i: usize) -> (r: (&String, &ShortcutCommand))
        requires
            i < self.entries().len(),
        ensures
            *r.0 == self.entries()[i as int].0,
            *r.1 == self.entries()[i as int].1,
    {
        (&self.commands[i].0, &self.commands[i].1)
    }

    /// The shortcut called `name`.
    pub fn get(&self, name: &str) -> (r: Option<&ShortcutCommand>)
        ensures
            r matches Some(c) ==> lookup_command(self.entries(), name@) == Some(*c),
            r is None ==> lookup_command(self.entries(), name@) is None,
    {
        proof {
            use_type_invariant(self);
        }
        let mut i: usize = 0;
        while i < self.commands.len()
            invariant
                i <= self.commands@.len(),
                unique_names(entry_names(self.commands@)),
                forall|j: int| 0 <= j < i ==> self.commands@[j].0@ != name@,
            decreases self.commands.len() - i,
        {
            if str_eq(self.commands[i].0.as_str(), name) {
                proof {
                    lemma_lookup_index(self.commands@, name@, i as int);
                }
                return Some(&self.commands[i].1);
            }
            i = i + 1;
        }
        proof {
            assert(!entry_names(self.commands@).contains(name@)) by {
                if entry_names(self.commands@).contains(name@) {
                    let k = choose|k: int|
                        0 <= k < entry_names(self.commands@).len() && entry_names(
                            self.commands@,
                        )[k] == name@;
                    assert(self.commands@[k].0@ == name@);
                }
            }
            lemma_lookup_absent(self.commands@, name@);
        }
        None
    }

    /// Adds a shortcut, or replaces the one of the same name in place.
    pub fn insert(&mut self, name: String, command: ShortcutCommand)
        ensures
            final(self).version_spec() == old(self).version_spec(),
            entry_names(old(self).entries()).contains(name@) ==> exists|i: int|
                0 <= i < old(self).entries().len() && old(self).entries()[i].0@ == name@
                    && final(self).entries() == old(self).entries().update(i, (name, command)),
            !entry_names(old(self).entries()).contains(name@) ==> final(self).entries() == old(
                self,
            ).entries().push((name, command)),
            lookup_command(final(self).entries(), name@) == Some(command),
            unique_names(entry_names(final(self).entries())),
    {
        proof {
            use_type_invariant(&*self);
        }
        let mut v: Vec<(String, ShortcutCommand)> = Vec::new();
        std::mem::swap(&mut v, &mut self.commands);
        let ghost before = v@;
        let mut i: usize = 0;
        while i < v.len()
            invariant
                v@ == before,
                before == old(self).commands@,
                self.version == old(self).version,
                i <= before.len(),
                unique_names(entry_names(before)),
                forall|j: int| 0 <= j < i ==> before[j].0@ != name@,
            decreases v.len() - i,
        {
            if str_eq(v[i].0.as_str(), name.as_str()) {
                let ghost entry = (name, command);
                v.set(i, (name, command));
                proof {
                    assert(v@ == before.update(i as int, entry));
                    assert(entry_names(v@) =~= entry_names(before).update(i as int, entry.0@));
                    assert(entry_names(before)[i as int] == entry.0@);
                    assert(entry_names(v@) =~= entry_names(before));
                    lemma_lookup_index(v@, entry.0@, i as int);
                }
                self.commands = v;
                return;
            }
            i = i + 1;
        }
        proof {
            assert(!entry_names(before).contains(name@)) by {
                if entry_names(before).contains(name@) {
                    let k = choose|k: int|
                        0 <= k < entry_names(before).len() && entry_names(before)[k] == name@;
                    assert(before[k].0@ == name@);
                }
            }
        }
        let ghost entry = (name, command);
        v.push((name, command));
        proof {
            assert(entry_names(v@) =~= entry_names(before).push(entry.0@));
            assert(entry_names(before).len() == before.len());
            lemma_lookup_index(v@, entry.0@, before.len() as int);
        }
        self.commands = v;
    }

    /// The shipped example: a `kill-port` shortcut and a `repo` shell
    /// shortcut.
    pub fn sample() -> (c: CommandsConfig)
        ensures
            c.version_spec() == 1,
            c.entries().len() == 2,
            c.entries()[0].0@ == "kill-port"@,
            c.entries()[1].0@ == "repo"@,
            c.entries()[0].1 matches ShortcutCommand::KillPort { description: Some(d) } && d@
                == "Stop the process listening on a TCP port."@,
            c.entries()[1].1 matches ShortcutCommand::Shell {
                description: Some(d),
                script: Some(s),
                script_path: None,
                dot_source: true,
            } && d@ == "Example custom script. Replace this with your own."@ && s@
                == "Set-Location -LiteralPath $HOME"@,
    {
        let mut c = CommandsConfig::new(1);
        c.insert(
            owned("kill-port"),
            ShortcutCommand::KillPort {
                description: Some(owned("Stop the process listening on a TCP port.")),
            },
        );
        proof {
            reveal_strlit("kill-port");
            reveal_strlit("repo");
        }
        assert(!entry_names(c.entries()).contains("repo"@)) by {
            assert(entry_names(c.entries()).len() == 1);
            assert(entry_names(c.entries())[0] == "kill-port"@);
            assert("kill-port"@[0] != "repo"@[0]);
        }
        c.insert(
            owned("repo"),
            ShortcutCommand::Shell {
                description: Some(owned("Example custom script. Replace this with your own.")),
                script: Some(owned("Set-Location -LiteralPath $HOME")),
                script_path: None,
                dot_source: default_dot_source(),
            },
        );
        c
    }
}

/// A saved location.
#[derive(Clone, Debug)]
pub struct SavedPath {
    pub name: String,
    pub path: String,
    pub last_accessed: u64,
}

/// The saved locations.
#[derive(Clone, Debug)]
pub struct PathsConfig {
    pub version: u8,
    pub saved: Vec<SavedPath>,
}

/// Version 1 with nothing saved.
impl Default for PathsConfig {
    fn default() -> (c: PathsConfig)
        ensures
            c.version == 1,
            c.saved@.len() == 0,
    {
        PathsConfig { version: 1, saved: Vec::new() }
    }
}

/// The settings of the profile bridge.
#[derive(Clone, Debug)]
pub struct SettingsConfig {
    pub version: u8,
    pub short_pwd: bool,
    pub display_timestamps: bool,
    pub terminal_history: bool,
    pub terminal_history_max_length: u16,
    pub session_history: bool,
}

/// Everything off, and at most 200 history entries.
impl Default for SettingsConfig {
    fn default() -> (c: SettingsConfig)
        ensures
            c.version == 1,
            !c.short_pwd,
            !c.display_timestamps,
            !c.terminal_history,
            c.terminal_history_max_length == 200,
            !c.session_history,
    {
        SettingsConfig {
            version: 1,
            short_pwd: false,
            display_timestamps: false,
            terminal_history: false,
            terminal_history_max_length: 200,
            session_history: false,
        }
    }
}

/// The file name of a configuration file.
pub open spec fn config_file_name(file: ConfigFile) -> Seq<char> {
    match file {
        ConfigFile::Commands => "commands.json"@,
        ConfigFile::Paths => "paths.json"@,
        ConfigFile::Settings => "settings.json"@,
        ConfigFile::Workspaces => "workspaces.json"@,
        ConfigFile::Dir => Seq::empty(),
    }
}

/// Where a configuration file lives in the configuration directory `dir`.
pub open spec fn config_path_seq(dir: Seq<char>, file: ConfigFile) -> Seq<char> {
    match file {
        ConfigFile::Dir => dir,
        _ => join_path_seq(dir, config_file_name(file)),
    }
}

/// The path of a configuration file, for the configuration directory
/// `dir`.
pub fn config_path(dir: &str, file: ConfigFile) -> (r: String)
    ensures
        r@ == config_path_seq(dir@, file),
{
    match file {
        ConfigFile::Commands => join_path(dir, "commands.json"),
        ConfigFile::Paths => join_path(dir, "paths.json"),
        ConfigFile::Settings => join_path(dir, "settings.json"),
        ConfigFile::Workspaces => join_path(dir, "workspaces.json"),
        ConfigFile::Dir => owned(dir),
    }
}

/// The configuration directory: `ps` under `APPDATA`, else under
/// `XDG_CONFIG_HOME`, else `.config/ps` under the home directory, the
/// current directory, or `.`.
pub open spec fn config_dir_seq(
    appdata: Option<Seq<char>>,
    xdg: Option<Seq<char>>,
    home: Option<Seq<char>>,
    cwd: Option<Seq<char>>,
) -> Seq<char> {
    match appdata {
        Some(a) => join_path_seq(a, "ps"@),
        None => match xdg {
            Some(x) => join_path_seq(x, "ps"@),
            None => {
                let base = match home {
                    Some(h) => h,
                    None => match cwd {
                        Some(c) => c,
                        None => "."@,
                    },
                };
                join_path_seq(join_path_seq(base, ".config"@), "ps"@)
            },
        },
    }
}

fn opt_owned(o: Option<&str>) -> (r: Option<String>)
    ensures
        r matches Some(s) ==> o matches Some(x) && s@ == x@,
        r is None ==> o is None,
{
    match o {
        Some(x) => Some(owned(x)),
        None => None,
    }
}

/// Chooses the configuration directory from the environment values
/// `APPDATA`, `XDG_CONFIG_HOME`, the home directory and the current
/// directory.
pub fn config_dir_from(
    appdata: Option<&str>,
    xdg: Option<&str>,
    home: Option<&str>,
    cwd: Option<&str>,
) -> (r: String)
    ensures
        r@ == config_dir_seq(
            match appdata {
                Some(a) => Some(a@),
                None => None,
            },
            match xdg {
                Some(x) => Some(x@),
                None => None,
            },
            match home {
                Some(h) => Some(h@),
                None => None,
            },
            match cwd {
                Some(c) => Some(c@),
                None => None,
            },
        ),
{
    if let Some(a) = appdata {
        return join_path(a, APP_NAME);
    }
    if let Some(x) = xdg {
        return join_path(x, APP_NAME);
    }
    let base = match home {
        Some(h) => owned(h),
        None => match cwd {
            Some(c) => owned(c),
            None => owned("."),
        },
    };
    let dot_config = join_path(base.as_str(), ".config");
    join_path(dot_config.as_str(), APP_NAME)
}

/// The home directory: `USERPROFILE`, else `HOME`.
pub fn home_dir_from(userprofile: Option<&str>, home: Option<&str>) -> (r: Option<String>)
    ensures
        r matches Some(h) ==> (match userprofile {
            Some(u) => h@ == u@,
            None => home matches Some(x) && h@ == x@,
        }),
        r is None ==> userprofile is None && home is None,
{
    match userprofile {
        Some(u) => Some(owned(u)),
        None => opt_owned(home),
    }
}

/// The text without a leading byte-order mark (U+FEFF).
pub open spec fn strip_bom_seq(s: Seq<char>) -> Seq<char> {
    if s.len() > 0 && s[0] == '\u{feff}' {
        s.drop_first()
    } else {
        s
    }
}

/// Removes a UTF-8 byte-order mark before JSON is parsed.
pub fn strip_utf8_bom(value: &str) -> (r: &str)
    ensures
        r@ == strip_bom_seq(value@),
{
    let n = value.unicode_len();
    if n > 0 && value.get_char(0) == '\u{feff}' {
        let r = value.substring_char(1, n);
        assert(r@ =~= value@.drop_first());
        r
    } else {
        value
    }
}

} // verus!
