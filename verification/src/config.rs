//! Settings: where each comes from, and how the settings file is read.

use vstd::prelude::*;
use vstd::string::*;
use crate::text::{
    chars_of, decimal_text, digit_char, find_from, position, strip_quotes, trim, trimmed, unquoted,
};

verus! {

/// One `key = value` pair of the settings file, with the section it stands
/// under.
#[derive(Debug, PartialEq, Eq)]
pub struct ConfigEntry {
    pub section: String,
    pub key: String,
    pub value: String,
}

/// The model of an entry: section, key and value.
pub type EntryModel = (Seq<char>, Seq<char>, Seq<char>);

impl View for ConfigEntry {
    type V = EntryModel;

    open spec fn view(&self) -> EntryModel {
        (self.section@, self.key@, self.value@)
    }
}

/// The models of a list of entries.
pub open spec fn entries_model(entries: Seq<ConfigEntry>) -> Seq<EntryModel> {
    entries.map_values(|e: ConfigEntry| e@)
}

/// What one line of the settings file says.
#[derive(Debug, PartialEq, Eq)]
pub enum Line {
    /// `[name]`: the lines that follow stand under `name`.
    Section(String),
    /// `key = value`.
    Pair(String, String),
    /// Anything else; it is passed over.
    Other,
}

/// The model of a line.
pub enum LineModel {
    Section(Seq<char>),
    Pair(Seq<char>, Seq<char>),
    Other,
}

impl View for Line {
    type V = LineModel;

    open spec fn view(&self) -> LineModel {
        match self {
            Line::Section(name) => LineModel::Section(name@),
            Line::Pair(k, v) => LineModel::Pair(k@, v@),
            Line::Other => LineModel::Other,
        }
    }
}

/// What a line says. White space around the line, the section's name, the
/// key and the value does not count. A line in square brackets is a
/// header. Else the first `=` parts a key, which may not be empty, from a
/// value, which loses one double quote at either end.
pub open spec fn line_of(raw: Seq<char>) -> LineModel {
    let t = trimmed(raw);
    let e = position(t, '=') as int;
    if t.len() >= 2 && t[0] == '[' && t.last() == ']' {
        LineModel::Section(trimmed(t.subrange(1, t.len() - 1)))
    } else if e < t.len() && trimmed(t.take(e)).len() > 0 {
        LineModel::Pair(trimmed(t.take(e)), unquoted(trimmed(t.skip(e + 1))))
    } else {
        LineModel::Other
    }
}

/// The entries of a settings text whose first line stands under `section`.
pub open spec fn entries_from(text: Seq<char>, section: Seq<char>) -> Seq<EntryModel>
    decreases text.len(),
{
    if text.len() == 0 {
        Seq::empty()
    } else {
        let n = position(text, '\n') as int;
        let rest = if n < text.len() {
            text.skip(n + 1)
        } else {
            Seq::empty()
        };
        match line_of(text.take(n)) {
            LineModel::Section(name) => entries_from(rest, name),
            LineModel::Pair(k, v) => seq![(section, k, v)] + entries_from(rest, section),
            LineModel::Other => entries_from(rest, section),
        }
    }
}

/// The entries of a settings text. Lines before the first header stand
/// under the section with the empty name.
pub open spec fn entries_of(text: Seq<char>) -> Seq<EntryModel> {
    entries_from(text, Seq::empty())
}

/// The value that the file gives a key of a section: that of the last such
/// entry.
pub open spec fn file_value(entries: Seq<EntryModel>, section: Seq<char>, key: Seq<char>) -> Option<
    Seq<char>,
>
    decreases entries.len(),
{
    if entries.len() == 0 {
        None
    } else if entries.last().0 == section && entries.last().1 == key {
        Some(entries.last().2)
    } else {
        file_value(entries.drop_last(), section, key)
    }
}

/// The value of a setting: that of the environment where it has one, else
/// that of the file where it has one, else the default.
pub open spec fn chosen(env: Option<Seq<char>>, file: Option<Seq<char>>, default: Seq<char>) -> Seq<
    char,
> {
    match env {
        Some(v) => v,
        None => match file {
            Some(v) => v,
            None => default,
        },
    }
}

/// The view of an optional string.
pub open spec fn opt_model(s: Option<String>) -> Option<Seq<char>> {
    match s {
        Some(v) => Some(v@),
        None => None,
    }
}

/// Whether `c` is one of the ten decimal digits.
pub open spec fn is_digit(c: char) -> bool {
    '0' <= c && c <= '9'
}

/// The number that a decimal digit stands for.
pub open spec fn digit_of(c: char) -> nat {
    if is_digit(c) {
        (c as nat - '0' as nat) as nat
    } else {
        0
    }
}

/// The number that a run of decimal digits writes.
pub open spec fn digits_value(s: Seq<char>) -> nat
    decreases s.len(),
{
    if s.len() == 0 {
        0
    } else {
        digits_value(s.drop_last()) * 10 + digit_of(s.last())
    }
}

/// The port that a text names: one or more decimal digits that write a
/// number up to 65535.
pub open spec fn port_of(s: Seq<char>) -> Option<u16> {
    if s.len() > 0 && (forall|i: int| 0 <= i < s.len() ==> is_digit(#[trigger] s[i]))
        && digits_value(s) <= 0xffff {
        Some(digits_value(s) as u16)
    } else {
        None
    }
}

/// Reads one line of the settings file.
pub fn parse_line(raw: &str) -> (r: Line)
    ensures
        r@ == line_of(raw@),
{
    let t = trim(raw);
    let cs = chars_of(t.as_str());
    let n = cs.len();
    if n >= 2 && cs[0] == '[' && cs[n - 1] == ']' {
        let inner = t.as_str().substring_char(1, n - 1);
        return Line::Section(trim(inner));
    }
    let e = find_from(&cs, 0, '=');
    assert(cs@.skip(0) =~= cs@);
    if e < n {
        let key = trim(t.as_str().substring_char(0, e));
        if key.as_str().unicode_len() > 0 {
            let rest = trim(t.as_str().substring_char(e + 1, n));
            let value = strip_quotes(rest.as_str());
            assert(t@.subrange(0, e as int) =~= t@.take(e as int));
            assert(t@.subrange(e + 1, n as int) =~= t@.skip(e + 1));
            return Line::Pair(key, value);
        }
        assert(t@.subrange(0, e as int) =~= t@.take(e as int));
    }
    Line::Other
}

/// Reads the settings file: its `key = value` pairs in order, each with the
/// section it stands under. Lines that say nothing are passed over.
pub fn parse_config(text: &str) -> (r: Vec<ConfigEntry>)
    ensures
        entries_model(r@) == entries_of(text@),
{
    let cs = chars_of(text);
    let n = cs.len();
    let mut entries: Vec<ConfigEntry> = Vec::new();
    let mut section = String::new();
    let mut pos: usize = 0;
    assert(text@.skip(0) =~= text@);
    assert(entries_model(entries@) =~= Seq::empty());
    assert(Seq::<EntryModel>::empty() + entries_of(text@) =~= entries_of(text@));
    while pos < n
        invariant
            pos <= n,
            n == cs.len(),
            cs@ == text@,
            entries_of(text@) == entries_model(entries@) + entries_from(
                text@.skip(pos as int),
                section@,
            ),
        decreases n - pos,
    {
        let end = find_from(&cs, pos, '\n');
        let line = text.substring_char(pos, end);
        let next: usize = if end < n {
            end + 1
        } else {
            n
        };
        let ghost here = text@.skip(pos as int);
        let ghost before = entries_model(entries@);
        proof {
            assert(here.take(end - pos) =~= text@.subrange(pos as int, end as int));
            if end < n {
                assert(here.skip(end - pos + 1) =~= text@.skip(next as int));
            } else {
                assert(text@.skip(next as int) =~= Seq::<char>::empty());
            }
        }
        match parse_line(line) {
            Line::Section(name) => {
                section = name;
            },
            Line::Pair(key, value) => {
                let entry = ConfigEntry { section: section.clone(), key, value };
                entries.push(entry);
                proof {
                    let rest = entries_from(text@.skip(next as int), section@);
                    assert(entries_model(entries@) =~= before + seq![entry@]);
                    assert((before + seq![entry@]) + rest =~= before + (seq![entry@] + rest));
                }
            },
            Line::Other => {},
        }
        pos = next;
    }
    assert(entries_model(entries@) + Seq::<EntryModel>::empty() =~= entries_model(entries@));
    entries
}

/// The value that the file gives a key of a section, if any: that of the
/// last such entry.
pub fn lookup(entries: &Vec<ConfigEntry>, section: &str, key: &str) -> (r: Option<String>)
    ensures
        opt_model(r) == file_value(entries_model(entries@), section@, key@),
{
    let wanted_section = String::from_str(section);
    let wanted_key = String::from_str(key);
    let ghost model = entries_model(entries@);
    let mut found: Option<String> = None;
    let mut i: usize = 0;
    while i < entries.len()
        invariant
            i <= entries.len(),
            wanted_section@ == section@,
            wanted_key@ == key@,
            model == entries_model(entries@),
            opt_model(found) == file_value(model.take(i as int), section@, key@),
        decreases entries.len() - i,
    {
        assert(model.take(i + 1).drop_last() =~= model.take(i as int));
        if entries[i].section == wanted_section && entries[i].key == wanted_key {
            found = Some(entries[i].value.clone());
        }
        i = i + 1;
    }
    assert(model.take(i as int) =~= model);
    found
}

/// Chooses the value of one setting: the environment's where it has one,
/// else the file's where it has one, else the default.
pub fn resolve_setting(env: Option<String>, file: Option<String>, default: &str) -> (r: String)
    ensures
        r@ == chosen(opt_model(env), opt_model(file), default@),
{
    match env {
        Some(v) => v,
        None => match file {
            Some(v) => v,
            None => String::from_str(default),
        },
    }
}

/// A prefix of a run of digits writes no larger a number than the run.
pub proof fn digits_value_grows(s: Seq<char>, i: int)
    requires
        0 <= i <= s.len(),
    ensures
        digits_value(s.take(i)) <= digits_value(s),
    decreases s.len() - i,
{
    if i < s.len() {
        assert(s.drop_last().take(i) =~= s.take(i));
        digits_value_grows(s.drop_last(), i);
    } else {
        assert(s.take(i) =~= s);
    }
}

/// Reads a port number: one or more decimal digits, up to 65535.
pub fn parse_port(text: &str) -> (r: Option<u16>)
    ensures
        r == port_of(text@),
{
    let cs = chars_of(text);
    if cs.len() == 0 {
        return None;
    }
    let mut acc: u32 = 0;
    let mut i: usize = 0;
    while i < cs.len()
        invariant
            i <= cs.len(),
            cs@ == text@,
            acc <= 0xffff,
            acc == digits_value(text@.take(i as int)),
            forall|j: int| 0 <= j < i ==> is_digit(#[trigger] text@[j]),
        decreases cs.len() - i,
    {
        let c = cs[i];
        if !('0' <= c && c <= '9') {
            return None;
        }
        let d: u32 = (c as u32) - ('0' as u32);
        assert(text@.take(i + 1).drop_last() =~= text@.take(i as int));
        assert(text@.take(i + 1).last() == c);
        let grown: u32 = acc * 10 + d;
        if grown > 0xffff {
            proof {
                digits_value_grows(text@, i + 1);
            }
            return None;
        }
        acc = grown;
        i = i + 1;
    }
    assert(text@.take(i as int) =~= text@);
    Some(acc as u16)
}

/// What the environment says of each setting.
#[derive(Debug, PartialEq, Eq)]
pub struct Environment {
    pub server_url: Option<String>,
    pub embox_url: Option<String>,
    pub embox_port: Option<String>,
}

/// What was found where the settings file should be.
#[derive(Debug, PartialEq, Eq)]
pub enum ConfigFile {
    /// No file, or no directory for it.
    Missing,
    /// A file that could not be opened.
    Unreadable,
    /// The file's text.
    Contents(String),
}

/// The settings in force.
#[derive(Debug, PartialEq, Eq)]
pub struct EffectiveConfig {
    pub disco_url: String,
    pub embox_url: String,
    pub embox_port: u16,
}

/// Why no settings could be made out.
#[derive(Debug, PartialEq, Eq)]
pub enum ConfigError {
    /// The settings file is there and was needed, but could not be opened.
    UnreadableFile,
    /// The text chosen for the port names no port.
    InvalidPort(String),
}

/// The entries that a file contributes: none where it is missing.
pub open spec fn file_entries(file: ConfigFile) -> Seq<EntryModel> {
    match file {
        ConfigFile::Contents(text) => entries_of(text@),
        _ => Seq::empty(),
    }
}

/// Whether the file has to be consulted: some setting is not in the
/// environment.
pub open spec fn file_needed(env: Environment) -> bool {
    env.server_url is None || env.embox_url is None || env.embox_port is None
}

/// The address of the discovery service.
pub open spec fn disco_url_of(env: Option<Seq<char>>, entries: Seq<EntryModel>) -> Seq<char> {
    chosen(env, file_value(entries, "em_disco"@, "server_url"@), "http://localhost:8080"@)
}

/// The address at which the service reaches the callback listener.
pub open spec fn embox_url_of(env: Option<Seq<char>>, entries: Seq<EntryModel>) -> Seq<char> {
    chosen(env, file_value(entries, "embox"@, "url"@), "http://localhost:8079/embox"@)
}

/// The text that names the callback listener's port.
pub open spec fn embox_port_text(env: Option<Seq<char>>, entries: Seq<EntryModel>) -> Seq<char> {
    chosen(env, file_value(entries, "embox"@, "port"@), "8079"@)
}

/// The settings that follow from the environment and the file's entries;
/// the text of the port where it names none.
pub open spec fn resolved(env: Environment, entries: Seq<EntryModel>) -> Result<
    (Seq<char>, Seq<char>, u16),
    Seq<char>,
> {
    let port_text = embox_port_text(opt_model(env.embox_port), entries);
    match port_of(port_text) {
        Some(port) => Ok(
            (
                disco_url_of(opt_model(env.server_url), entries),
                embox_url_of(opt_model(env.embox_url), entries),
                port,
            ),
        ),
        None => Err(port_text),
    }
}

/// Resolves the three settings from the environment and the entries of the
/// settings file. It fails only where the text chosen for the port names no
/// port.
pub fn resolve(env: Environment, entries: &Vec<ConfigEntry>) -> (r: Result<
    EffectiveConfig,
    ConfigError,
>)
    ensures
        match r {
            Ok(c) => resolved(env, entries_model(entries@)) == Ok::<
                (Seq<char>, Seq<char>, u16),
                Seq<char>,
            >((c.disco_url@, c.embox_url@, c.embox_port)),
            Err(ConfigError::InvalidPort(text)) => resolved(env, entries_model(entries@)) == Err::<
                (Seq<char>, Seq<char>, u16),
                Seq<char>,
            >(text@),
            Err(ConfigError::UnreadableFile) => false,
        },
{
    let Environment { server_url, embox_url, embox_port } = env;
    let disco_url = resolve_setting(
        server_url,
        lookup(entries, "em_disco", "server_url"),
        "http://localhost:8080",
    );
    let embox_url = resolve_setting(
        embox_url,
        lookup(entries, "embox", "url"),
        "http://localhost:8079/embox",
    );
    let port_text = resolve_setting(embox_port, lookup(entries, "embox", "port"), "8079");
    match parse_port(port_text.as_str()) {
        Some(port) => Ok(EffectiveConfig { disco_url, embox_url, embox_port: port }),
        None => Err(ConfigError::InvalidPort(port_text)),
    }
}

/// Resolves the settings from the environment and what was found where the
/// settings file should be. A missing file overrides nothing. A file that
/// cannot be opened is an error, unless the environment gives every setting
/// and the file is not consulted.
pub fn load(env: Environment, file: &ConfigFile) -> (r: Result<EffectiveConfig, ConfigError>)
    ensures
        match r {
            Ok(c) => !(file is Unreadable && file_needed(env)) && resolved(
                env,
                file_entries(*file),
            ) == Ok::<(Seq<char>, Seq<char>, u16), Seq<char>>(
                (c.disco_url@, c.embox_url@, c.embox_port),
            ),
            Err(ConfigError::UnreadableFile) => file is Unreadable && file_needed(env),
            Err(ConfigError::InvalidPort(text)) => !(file is Unreadable && file_needed(env))
                && resolved(env, file_entries(*file)) == Err::<
                (Seq<char>, Seq<char>, u16),
                Seq<char>,
            >(text@),
        },
{
    let needed = env.server_url.is_none() || env.embox_url.is_none() || env.embox_port.is_none();
    match file {
        ConfigFile::Contents(text) => {
            let entries = parse_config(text.as_str());
            resolve(env, &entries)
        },
        ConfigFile::Missing => {
            let entries: Vec<ConfigEntry> = Vec::new();
            assert(entries_model(entries@) =~= Seq::empty());
            resolve(env, &entries)
        },
        ConfigFile::Unreadable => {
            if needed {
                Err(ConfigError::UnreadableFile)
            } else {
                let entries: Vec<ConfigEntry> = Vec::new();
                assert(entries_model(entries@) =~= Seq::empty());
                resolve(env, &entries)
            }
        },
    }
}

/// Where the settings file lies below a directory for settings.
pub fn config_path(config_dir: &str) -> (r: String)
    ensures
        r@ == config_dir@ + "/emergence/emergence.conf"@,
{
    let mut out = String::from_str(config_dir);
    out.append("/emergence/emergence.conf");
    out
}

/// Where the settings file lies below the directory for application data,
/// on systems that part the names of a path with a backslash.
pub fn fallback_config_path(data_dir: &str) -> (r: String)
    ensures
        r@ == data_dir@ + "\\emergence\\emergence.conf"@,
{
    let mut out = String::from_str(data_dir);
    out.append("\\emergence\\emergence.conf");
    out
}

/// The environment decides where it speaks; where it is silent the file
/// decides; where both are silent the default stands.
pub proof fn precedence(env: Seq<char>, file: Seq<char>, default: Seq<char>)
    ensures
        chosen(Some(env), Some(file), default) == env,
        chosen(Some(env), None, default) == env,
        chosen(None, Some(file), default) == file,
        chosen(None, None, default) == default,
{
}

/// A number written in decimal digits reads back as itself.
pub proof fn decimal_text_reads_back(n: nat)
    ensures
        decimal_text(n).len() > 0,
        forall|i: int| 0 <= i < decimal_text(n).len() ==> is_digit(#[trigger] decimal_text(n)[i]),
        digits_value(decimal_text(n)) == n,
    decreases n,
{
    if n < 10 {
        let s = seq![digit_char(n)];
        assert(s.drop_last() =~= Seq::<char>::empty());
        assert(digits_value(s.drop_last()) == 0);
        assert(digit_of(digit_char(n)) == n);
    } else {
        decimal_text_reads_back(n / 10);
        let head = decimal_text(n / 10);
        let s = head + seq![digit_char(n % 10)];
        assert(s.drop_last() =~= head);
        assert(s.last() == digit_char(n % 10));
        assert(digit_of(digit_char(n % 10)) == n % 10);
        assert forall|i: int| 0 <= i < s.len() implies is_digit(#[trigger] s[i]) by {
            if i < head.len() {
                assert(s[i] == head[i]);
            }
        }
    }
}

/// The port that a listener's address is written with is the port that the
/// text reads as.
pub proof fn port_text_reads_back(port: u16)
    ensures
        port_of(decimal_text(port as nat)) == Some(port),
{
    decimal_text_reads_back(port as nat);
}

} // verus!
