use crate::text::{
    chars_of, find_char, index_of, index_of_is_first, lines_of, parse_u64_chars, parsed_u64,
    rows_of, slice_chars, split_lines, string_of, trim_chars, trimmed,
};
use vstd::hash_map::StringHashMap;
use vstd::prelude::*;

verus! {

/// Whether the desktop shell is restarted after updates.
#[derive(Clone, Copy, Debug, PartialEq, Eq, Structural)]
pub enum RestartBehavior {
    /// Never restart the shell.
    Never,
    /// Restart the shell after successful updates that need it.
    Always,
    /// Ask the user.
    Prompt,
}

impl Default for RestartBehavior {
    fn default() -> (r: Self)
        ensures
            r == RestartBehavior::Never,
    {
        RestartBehavior::Never
    }
}

/// How much is reported.
#[derive(Clone, Copy, Debug, PartialEq, Eq, Structural)]
pub enum Verbosity {
    Quiet,
    Normal,
    Verbose,
}

impl Default for Verbosity {
    fn default() -> (r: Self)
        ensures
            r == Verbosity::Normal,
    {
        Verbosity::Normal
    }
}

impl Verbosity {
    /// The word that stands for the level in a configuration file.
    pub open spec fn word(self) -> Seq<char> {
        match self {
            Verbosity::Quiet => "quiet"@,
            Verbosity::Normal => "normal"@,
            Verbosity::Verbose => "verbose"@,
        }
    }

    /// The word that stands for the level in a configuration file.
    pub fn as_str(self) -> (r: &'static str)
        ensures
            r@ == self.word(),
    {
        match self {
            Verbosity::Quiet => "quiet",
            Verbosity::Normal => "normal",
            Verbosity::Verbose => "verbose",
        }
    }
}

/// The level that a configured word stands for; any word but `quiet` and
/// `verbose`, and no word at all, stand for the normal level.
pub open spec fn verbosity_of(word: Option<Seq<char>>) -> Verbosity {
    match word {
        Some(w) => if w == "quiet"@ {
            Verbosity::Quiet
        } else if w == "verbose"@ {
            Verbosity::Verbose
        } else {
            Verbosity::Normal
        },
        None => Verbosity::Normal,
    }
}

/// The level that a configured word stands for.
pub fn parse_verbosity(word: Option<&str>) -> (r: Verbosity)
    ensures
        r == verbosity_of(
            match word {
                Some(w) => Some(w@),
                None => None,
            },
        ),
{
    match word {
        Some(w) => {
            if crate::text::str_eq(w, "quiet") {
                Verbosity::Quiet
            } else if crate::text::str_eq(w, "verbose") {
                Verbosity::Verbose
            } else {
                Verbosity::Normal
            }
        },
        None => Verbosity::Normal,
    }
}

/// A table from directory names to catalog ids.
pub struct IdTable {
    map: StringHashMap<u64>,
}

impl View for IdTable {
    type V = Map<Seq<char>, u64>;

    closed spec fn view(&self) -> Map<Seq<char>, u64> {
        self.map@
    }
}

impl IdTable {
    /// A table without entries.
    pub fn new() -> (r: Self)
        ensures
            r@ == Map::<Seq<char>, u64>::empty(),
    {
        IdTable { map: StringHashMap::new() }
    }

    /// Gives `name` the id `id`, in place of the id it had.
    pub fn insert(&mut self, name: String, id: u64)
        ensures
            final(self)@ == old(self)@.insert(name@, id),
    {
        self.map.insert(name, id);
    }

    /// The id of `name`, where the table gives it one.
    pub fn get(&self, name: &str) -> (r: Option<u64>)
        ensures
            r == (if self@.contains_key(name@) {
                Some(self@[name@])
            } else {
                None
            }),
    {
        match self.map.get(name) {
            Some(id) => Some(*id),
            None => None,
        }
    }

    /// Whether the table gives `name` an id.
    pub fn contains_key(&self, name: &str) -> (r: bool)
        ensures
            r == self@.contains_key(name@),
    {
        self.map.contains_key(name)
    }

    /// The number of names in the table.
    pub fn len(&self) -> (r: usize)
        ensures
            r == self@.len(),
    {
        self.map.len()
    }

    /// Whether the table is without entries.
    pub fn is_empty(&self) -> (r: bool)
        ensures
            r == self@.is_empty(),
    {
        self.map.is_empty()
    }
}

/// What one line of an id table says: an id and, after the first blank, a
/// directory name. Empty lines, lines that begin with `#` and lines without
/// a leading number say nothing. White space around the line, the id and the
/// name does not count.
pub open spec fn widgets_id_entry(line: Seq<char>) -> Option<(u64, Seq<char>)> {
    let t = trimmed(line);
    if t.len() == 0 || t[0] == '#' {
        None
    } else {
        let i = index_of(t, ' ');
        if 0 <= i < t.len() {
            match parsed_u64(trimmed(t.take(i))) {
                Some(id) => Some((id, trimmed(t.skip(i + 1)))),
                None => None,
            }
        } else {
            None
        }
    }
}

/// The table that a run of lines builds: a later line for a name takes the
/// place of an earlier one.
pub open spec fn widgets_table(lines: Seq<Seq<char>>) -> Map<Seq<char>, u64>
    decreases lines.len(),
{
    if lines.len() == 0 {
        Map::empty()
    } else {
        match widgets_id_entry(lines.last()) {
            Some((id, name)) => widgets_table(lines.drop_last()).insert(name, id),
            None => widgets_table(lines.drop_last()),
        }
    }
}

fn id_entry_of(line: &Vec<char>) -> (r: Option<(u64, String)>)
    ensures
        r is Some == widgets_id_entry(line@) is Some,
        r matches Some((id, name)) ==> widgets_id_entry(line@) == Some((id, name@)),
{
    let t = trim_chars(line);
    if t.len() == 0 || t[0] == '#' {
        return None;
    }
    let i = find_char(&t, ' ', 0);
    proof {
        assert(t@.skip(0) =~= t@);
        index_of_is_first(t@, ' ');
    }
    if i >= t.len() {
        return None;
    }
    let head = slice_chars(&t, 0, i);
    let tail = slice_chars(&t, i + 1, t.len());
    proof {
        assert(head@ =~= t@.take(i as int));
        assert(tail@ =~= t@.skip(i as int + 1));
    }
    let head = trim_chars(&head);
    match parse_u64_chars(&head) {
        Some(id) => {
            let name = trim_chars(&tail);
            Some((id, string_of(&name)))
        },
        None => None,
    }
}

/// Reads one line of an id table.
pub fn parse_widgets_id_line(line: &str) -> (r: Option<(u64, String)>)
    ensures
        r is Some == widgets_id_entry(line@) is Some,
        r matches Some((id, name)) ==> widgets_id_entry(line@) == Some((id, name@)),
{
    let v = chars_of(line);
    id_entry_of(&v)
}

/// The id table that ships with the library.
pub fn default_widgets_id() -> (r: &'static str)
    ensures
        r@ == DEFAULT_WIDGETS_ID@,
{
    DEFAULT_WIDGETS_ID
}

/// The id table that ships with the library: one line for each component
/// whose directory name differs from its name in the catalog.
pub const DEFAULT_WIDGETS_ID: &'static str =
    "998890 com.bxabi.bumblebee-indicator\n998913 org.kde.plasma.awesomewidget\n1155946 com.dschopf.plasma.qalculate\n#2182964 adhe.menu.11 #Ignored, not a unique ID\n";

/// The settings of a check or an update.
pub struct Config {
    /// Work on the system-wide components in place of the user's.
    pub system: bool,
    /// Components that are never updated, by name or by directory name.
    pub excluded_packages: Vec<String>,
    /// Catalog ids for components that cannot be matched otherwise.
    pub widgets_id_table: IdTable,
    pub restart: RestartBehavior,
    /// Update without asking which components to update.
    pub yes: bool,
    /// The number of updates that are installed at a time; `None` leaves it
    /// to the machine.
    pub threads: Option<usize>,
    pub verbosity: Verbosity,
}

impl Default for Config {
    /// The default settings, with an empty id table.
    fn default() -> (r: Self)
        ensures
            !r.system,
            r.excluded_packages@.len() == 0,
            r.widgets_id_table@ == Map::<Seq<char>, u64>::empty(),
            r.restart == RestartBehavior::Never,
            !r.yes,
            r.threads is None,
            r.verbosity == Verbosity::Normal,
    {
        Config {
            system: false,
            excluded_packages: Vec::new(),
            widgets_id_table: IdTable::new(),
            restart: RestartBehavior::Never,
            yes: false,
            threads: None,
            verbosity: Verbosity::Normal,
        }
    }
}

impl Config {
    /// The default settings, with the id table that ships with the library.
    pub fn new() -> (r: Self)
        ensures
            !r.system,
            r.excluded_packages@.len() == 0,
            r.widgets_id_table@ == widgets_table(lines_of(DEFAULT_WIDGETS_ID@)),
            r.restart == RestartBehavior::Never,
            !r.yes,
            r.threads is None,
            r.verbosity == Verbosity::Normal,
    {
        Config {
            system: false,
            excluded_packages: Vec::new(),
            widgets_id_table: Self::parse_widgets_id(default_widgets_id()),
            restart: RestartBehavior::Never,
            yes: false,
            threads: None,
            verbosity: Verbosity::Normal,
        }
    }

    pub fn with_system(self, system: bool) -> (r: Self)
        ensures
            r == (Config { system, ..self }),
    {
        let mut c = self;
        c.system = system;
        c
    }

    pub fn with_widgets_id_table(self, table: IdTable) -> (r: Self)
        ensures
            r == (Config { widgets_id_table: table, ..self }),
    {
        let mut c = self;
        c.widgets_id_table = table;
        c
    }

    pub fn with_excluded_packages(self, packages: Vec<String>) -> (r: Self)
        ensures
            r == (Config { excluded_packages: packages, ..self }),
    {
        let mut c = self;
        c.excluded_packages = packages;
        c
    }

    pub fn with_restart(self, restart: RestartBehavior) -> (r: Self)
        ensures
            r == (Config { restart, ..self }),
    {
        let mut c = self;
        c.restart = restart;
        c
    }

    pub fn with_yes(self, yes: bool) -> (r: Self)
        ensures
            r == (Config { yes, ..self }),
    {
        let mut c = self;
        c.yes = yes;
        c
    }

    pub fn with_threads(self, threads: usize) -> (r: Self)
        ensures
            r == (Config { threads: Some(threads), ..self }),
    {
        let mut c = self;
        c.threads = Some(threads);
        c
    }

    pub fn with_verbosity(self, verbosity: Verbosity) -> (r: Self)
        ensures
            r == (Config { verbosity, ..self }),
    {
        let mut c = self;
        c.verbosity = verbosity;
        c
    }

    /// Reads an id table: one entry a line, the id before the directory name.
    pub fn parse_widgets_id(content: &str) -> (r: IdTable)
        ensures
            r@ == widgets_table(lines_of(content@)),
    {
        let v = chars_of(content);
        let lines = split_lines(&v);
        let ghost all = rows_of(lines@);
        let mut table = IdTable::new();
        let mut i: usize = 0;
        proof {
            assert(all.take(0) =~= Seq::<Seq<char>>::empty());
        }
        while i < lines.len()
            invariant
                i <= lines.len(),
                all == rows_of(lines@),
                table@ == widgets_table(all.take(i as int)),
            decreases lines.len() - i,
        {
            proof {
                assert(all.take(i as int + 1).drop_last() =~= all.take(i as int));
                assert(all.take(i as int + 1).last() == lines@[i as int]@);
            }
            match id_entry_of(&lines[i]) {
                Some((id, name)) => {
                    table.insert(name, id);
                },
                None => {},
            }
            i += 1;
        }
        proof {
            assert(all.take(i as int) =~= all);
        }
        table
    }
}

} // verus!
