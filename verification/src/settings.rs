//! Appearance settings. A missing file means System.
//!
//! A theme change works on memory at once. The write to disk is a job for a
//! worker. Jobs can overlap: a worker asks its job under one write lock
//! whether it is still the latest, so the file always ends with the newest
//! theme.

use crate::protocol::Text;
use crate::text::{chars_of, trim, trim_end, trim_start, trimmed};
use crate::theme::{ThemeMode, law_mode_round_trip, mode_name, mode_of};
use vstd::prelude::*;
use vstd::string::*;

verus! {

/// First line of the settings file.
pub const HEADER: &'static str = "# thinwire appearance. Missing file means System.";

/// Where the settings file stands below the config dir.
pub const SETTINGS_FILE: &'static str = "thinwire/settings.toml";

/// The index of the first `mark` in `s`, or the length when it has none.
pub open spec fn index_of(s: Text, mark: char) -> int
    decreases s.len(),
{
    if s.len() == 0 || s[0] == mark {
        0
    } else {
        1 + index_of(s.drop_first(), mark)
    }
}

/// The theme that a settings text names. Blank lines and comments are
/// skipped. A line without `=` ends the search. The first `theme` key counts.
pub open spec fn theme_in(contents: Text) -> Option<ThemeMode>
    decreases contents.len(),
{
    if contents.len() == 0 {
        None
    } else {
        let end = index_of(contents, '\n');
        let line = trim(contents.take(end));
        let rest = contents.skip(if end < contents.len() {
            end + 1
        } else {
            end
        });
        if line.len() == 0 || line[0] == '#' {
            if rest.len() < contents.len() {
                theme_in(rest)
            } else {
                None
            }
        } else {
            let at = index_of(line, '=');
            if at >= line.len() {
                None
            } else if trim(line.take(at)) == "theme"@ {
                mode_of(line.skip(at + 1))
            } else if rest.len() < contents.len() {
                theme_in(rest)
            } else {
                None
            }
        }
    }
}

/// The settings text of a theme.
pub open spec fn rendered(theme: ThemeMode) -> Text {
    HEADER@ + "\ntheme = "@ + mode_name(theme) + "\n"@
}

/// `dir` with a file name below it.
pub open spec fn below(dir: Text, name: Text) -> Text {
    if dir.len() == 0 || dir.last() == '/' {
        dir + name
    } else {
        dir.push('/') + name
    }
}

proof fn lemma_index_of(s: Text, mark: char)
    ensures
        0 <= index_of(s, mark) <= s.len(),
        index_of(s, mark) < s.len() ==> s[index_of(s, mark)] == mark,
        forall|j: int| 0 <= j < index_of(s, mark) ==> s[j] != mark,
    decreases s.len(),
{
    if s.len() > 0 && s[0] != mark {
        lemma_index_of(s.drop_first(), mark);
        assert forall|j: int| 0 <= j < index_of(s, mark) implies s[j] != mark by {
            if j > 0 {
                assert(s[j] == s.drop_first()[j - 1]);
            }
        }
    }
}

proof fn lemma_index_is(s: Text, mark: char, at: int)
    requires
        0 <= at <= s.len(),
        at < s.len() ==> s[at] == mark,
        forall|j: int| 0 <= j < at ==> s[j] != mark,
    ensures
        index_of(s, mark) == at,
    decreases s.len(),
{
    lemma_index_of(s, mark);
}

/// The index of the first `mark` from `from` on, or the length.
fn find_from(chars: &Vec<char>, mark: char, from: usize) -> (r: usize)
    requires
        from <= chars.len(),
    ensures
        from <= r <= chars.len(),
        r - from == index_of(chars@.skip(from as int), mark),
{
    let mut i: usize = from;
    while i < chars.len() && chars[i] != mark
        invariant
            from <= i <= chars.len(),
            forall|j: int| from <= j < i ==> chars@[j] != mark,
        decreases chars.len() - i,
    {
        i = i + 1;
    }
    proof {
        lemma_index_is(chars@.skip(from as int), mark, i - from);
    }
    i
}

/// The theme that a settings text names.
pub fn read_theme(contents: &str) -> (r: Option<ThemeMode>)
    ensures
        r == theme_in(contents@),
{
    let chars = chars_of(contents);
    let mut from: usize = 0;
    assert(contents@.skip(0) =~= contents@);
    while from < chars.len()
        invariant
            from <= chars.len(),
            chars@ == contents@,
            theme_in(contents@) == theme_in(contents@.skip(from as int)),
        decreases chars.len() - from,
    {
        let ghost left = contents@.skip(from as int);
        let end: usize = find_from(&chars, '\n', from);
        let line = trimmed(contents.substring_char(from, end));
        let next: usize = if end < chars.len() {
            end + 1
        } else {
            end
        };
        proof {
            assert(contents@.subrange(from as int, end as int) =~= left.take(end - from));
            assert(left.skip(next - from) =~= contents@.skip(next as int));
            lemma_index_of(left, '\n');
        }
        let row = chars_of(line);
        if row.len() > 0 && row[0] != '#' {
            let at: usize = find_from(&row, '=', 0);
            proof {
                assert(row@.skip(0) =~= row@);
            }
            if at >= row.len() {
                return None;
            }
            let key = trimmed(line.substring_char(0, at));
            proof {
                assert(line@.subrange(0, at as int) =~= line@.take(at as int));
            }
            if key.to_owned() == "theme".to_owned() {
                proof {
                    assert(line@.subrange(at + 1, row@.len() as int) =~= line@.skip(at + 1));
                }
                return ThemeMode::parse(line.substring_char(at + 1, row.len()));
            }
        }
        if next <= from {
            return None;
        }
        from = next;
    }
    proof {
        assert(contents@.skip(from as int).len() == 0);
    }
    None
}

/// The settings file below the config dir, or below `.` without one.
pub fn default_path(config_dir: Option<&str>) -> (r: String)
    ensures
        r@ == below(
            match config_dir {
                Some(dir) => dir@,
                None => "."@,
            },
            SETTINGS_FILE@,
        ),
{
    let dir: &str = match config_dir {
        Some(dir) => dir,
        None => ".",
    };
    let chars = chars_of(dir);
    let mut path = dir.to_owned();
    if chars.len() > 0 && chars[chars.len() - 1] != '/' {
        path.append("/");
        proof {
            reveal_strlit("/");
            assert(path@ =~= dir@.push('/'));
        }
    }
    path.append(SETTINGS_FILE);
    path
}

/// One write of the settings file, for a worker.
pub struct PersistJob {
    path: String,
    contents: String,
    epoch: u64,
}

/// What a worker writes.
pub struct SettingsWrite {
    pub path: String,
    pub contents: String,
}

impl PersistJob {
    pub closed spec fn path_of(self) -> Text {
        self.path@
    }

    pub closed spec fn contents_of(self) -> Text {
        self.contents@
    }

    pub closed spec fn epoch_of(self) -> u64 {
        self.epoch
    }

    /// Where this job stands in the order of the jobs. The newest job has the
    /// highest number.
    pub fn epoch(&self) -> (r: u64)
        ensures
            r == self.epoch_of(),
    {
        self.epoch
    }

    /// No newer job was taken. `latest` is the number of the newest one.
    pub fn is_current(&self, latest: u64) -> (r: bool)
        ensures
            r == (latest == self.epoch_of()),
    {
        latest == self.epoch
    }

    /// What to write now, or nothing when a newer job was taken. Ask it under
    /// the write lock.
    pub fn run(self, latest: u64) -> (r: Option<SettingsWrite>)
        ensures
            match r {
                Some(write) => latest == self.epoch_of() && write.path@ == self.path_of()
                    && write.contents@ == self.contents_of(),
                None => latest != self.epoch_of(),
            },
    {
        if self.is_current(latest) {
            Some(SettingsWrite { path: self.path, contents: self.contents })
        } else {
            None
        }
    }
}

/// The settings as the contracts see them.
pub struct SettingsModel {
    pub theme: ThemeMode,
    pub path: Text,
    pub pending: bool,
    pub epoch: u64,
    pub in_memory: bool,
}

impl SettingsModel {
    /// Settings that start at System and never reach a file.
    pub open spec fn memory() -> SettingsModel {
        SettingsModel {
            theme: ThemeMode::System,
            path: Seq::empty(),
            pending: false,
            epoch: 0,
            in_memory: true,
        }
    }

    /// The state after a theme change. A repeat of the theme in use asks for
    /// no write.
    pub open spec fn with_theme(self, theme: ThemeMode) -> SettingsModel {
        if self.theme == theme && !self.pending {
            self
        } else {
            SettingsModel { theme, pending: true, ..self }
        }
    }

    /// A write is due. In-memory settings never write.
    pub open spec fn owes_write(self) -> bool {
        self.pending && !self.in_memory
    }

    /// The number of the next job.
    pub open spec fn next_epoch(self) -> u64 {
        if self.epoch == u64::MAX {
            u64::MAX
        } else {
            (self.epoch + 1) as u64
        }
    }

    /// The state after the queued write was taken.
    pub open spec fn taken(self) -> SettingsModel {
        SettingsModel {
            pending: false,
            epoch: if self.owes_write() {
                self.next_epoch()
            } else {
                self.epoch
            },
            ..self
        }
    }
}

/// Persisted appearance. Only the theme is stored.
pub struct Settings {
    theme: ThemeMode,
    path: String,
    persist_pending: bool,
    persist_epoch: u64,
    in_memory: bool,
}

impl View for Settings {
    type V = SettingsModel;

    closed spec fn view(&self) -> SettingsModel {
        SettingsModel {
            theme: self.theme,
            path: self.path@,
            pending: self.persist_pending,
            epoch: self.persist_epoch,
            in_memory: self.in_memory,
        }
    }
}

impl Settings {
    /// Settings of the platform config dir. `contents` is what the file holds,
    /// or nothing when it is missing or unreadable.
    pub fn load(config_dir: Option<&str>, contents: Option<&str>) -> (r: Self)
        ensures
            r@.path == below(
                match config_dir {
                    Some(dir) => dir@,
                    None => "."@,
                },
                SETTINGS_FILE@,
            ),
            r@ == (SettingsModel {
                theme: theme_or_system(contents.deep_view()),
                path: r@.path,
                pending: false,
                epoch: 0,
                in_memory: false,
            }),
    {
        Settings::load_from(default_path(config_dir), contents)
    }

    /// Settings of a file. `contents` is what the file holds, or nothing when
    /// it is missing or unreadable. Anything that names no theme is System.
    pub fn load_from(path: String, contents: Option<&str>) -> (r: Self)
        ensures
            r@ == (SettingsModel {
                theme: theme_or_system(contents.deep_view()),
                path: path@,
                pending: false,
                epoch: 0,
                in_memory: false,
            }),
    {
        let named = match contents {
            Some(text) => read_theme(text),
            None => None,
        };
        let theme = match named {
            Some(theme) => theme,
            None => ThemeMode::System,
        };
        Settings { theme, path, persist_pending: false, persist_epoch: 0, in_memory: false }
    }

    /// Settings that start at System and never read or write a file.
    pub fn in_memory() -> (r: Self)
        ensures
            r@ == SettingsModel::memory(),
    {
        Settings {
            theme: ThemeMode::System,
            path: String::new(),
            persist_pending: false,
            persist_epoch: 0,
            in_memory: true,
        }
    }

    /// The theme in use.
    pub fn theme(&self) -> (r: ThemeMode)
        ensures
            r == self@.theme,
    {
        self.theme
    }

    /// Change the theme in memory at once. The write is queued.
    pub fn set_theme(&mut self, theme: ThemeMode)
        ensures
            final(self)@ == old(self)@.with_theme(theme),
    {
        if self.theme == theme && !self.persist_pending {
            return ;
        }
        self.theme = theme;
        self.persist_pending = true;
    }

    /// Take the latest queued write.
    pub fn take_persist_job(&mut self) -> (r: Option<PersistJob>)
        ensures
            final(self)@ == old(self)@.taken(),
            match r {
                Some(job) => old(self)@.owes_write() && job.path_of() == old(self)@.path
                    && job.contents_of() == rendered(old(self)@.theme) && job.epoch_of() == old(
                    self,
                )@.next_epoch(),
                None => !old(self)@.owes_write(),
            },
    {
        let due = self.persist_pending && !self.in_memory;
        self.persist_pending = false;
        if !due {
            return None;
        }
        self.persist_epoch = self.persist_epoch.saturating_add(1);
        Some(
            PersistJob {
                path: self.path.clone(),
                contents: self.render(),
                epoch: self.persist_epoch,
            },
        )
    }

    /// The settings text.
    pub fn render(&self) -> (r: String)
        ensures
            r@ == rendered(self@.theme),
    {
        let mut text = HEADER.to_owned();
        text.append("\ntheme = ");
        text.append(self.theme.as_str());
        text.append("\n");
        text
    }
}

/// The theme of what a settings file holds.
pub open spec fn theme_or_system(contents: Option<Text>) -> ThemeMode {
    match contents {
        Some(text) => match theme_in(text) {
            Some(theme) => theme,
            None => ThemeMode::System,
        },
        None => ThemeMode::System,
    }
}

/// A theme that was written reads back as that theme.
pub proof fn law_written_theme_reads_back(theme: ThemeMode)
    ensures
        theme_in(rendered(theme)) == Some(theme),
{
    let s = rendered(theme);
    let name = mode_name(theme);
    reveal_strlit("# thinwire appearance. Missing file means System.");
    reveal_strlit("\ntheme = ");
    reveal_strlit("\n");
    reveal_strlit("theme");
    reveal_strlit("system");
    reveal_strlit("light");
    reveal_strlit("dark");
    law_mode_round_trip(theme);
    let first = HEADER@.len() as int;
    assert(s[first] == '\n');
    lemma_index_is(s, '\n', first);
    let line = s.take(first);
    assert(line[0] == '#');
    assert(line.last() == '.');
    assert(trim(line) == line);
    let rest = s.skip(first + 1);
    assert(rest =~= "\ntheme = "@.skip(1) + name + "\n"@);
    lemma_second_line(rest, name);
}

/// The line of a theme names that theme.
proof fn lemma_second_line(rest: Text, name: Text)
    requires
        name == "system"@ || name == "light"@ || name == "dark"@,
        rest == "\ntheme = "@.skip(1) + name + "\n"@,
    ensures
        theme_in(rest) == mode_of(name),
{
    reveal_strlit("\ntheme = ");
    reveal_strlit("\n");
    reveal_strlit("theme");
    reveal_strlit("system");
    reveal_strlit("light");
    reveal_strlit("dark");
    let end = 8 + name.len();
    assert forall|j: int| 0 <= j < end implies rest[j] != '\n' by {
        if j >= 8 {
            assert(rest[j] == name[j - 8]);
        } else {
            assert(rest[j] == "\ntheme = "@[j + 1]);
        }
    }
    assert(rest[end as int] == '\n');
    lemma_index_is(rest, '\n', end as int);
    let line = rest.take(end as int);
    assert(line[0] == 't');
    assert(line.last() == name.last());
    assert(trim(line) == line);
    assert forall|j: int| 0 <= j < 6 implies line[j] != '=' by {
        assert(line[j] == "\ntheme = "@[j + 1]);
    }
    assert(line[6] == '=');
    lemma_index_is(line, '=', 6);
    let key = line.take(6);
    assert(key.last() == ' ');
    assert(key.drop_last() =~= "theme"@);
    assert(trim_start(key) == key) by {
        assert(key.first() == 't');
    }
    assert(trim_end(key) == trim_end("theme"@));
    assert(trim_end("theme"@) == "theme"@) by {
        assert("theme"@.last() == 'e');
    }
    let value = line.skip(7);
    assert(value[0] == ' ');
    assert(value.drop_first() =~= name);
    assert(crate::theme::bare(value) == crate::theme::bare(name)) by {
        assert(name[0] != ' ');
    }
}

/// After a newer job was taken, an older one writes nothing.
pub proof fn law_older_job_writes_nothing(before: SettingsModel, after: SettingsModel)
    requires
        before.owes_write(),
        after.owes_write(),
        after.epoch == before.taken().epoch,
        before.epoch < u64::MAX - 1,
    ensures
        before.next_epoch() != after.next_epoch(),
{
}

/// The first `mark` of a text stands at its index, and none before it.
pub proof fn law_index_is_the_first_mark(s: Text, mark: char, i: int)
    ensures
        0 <= index_of(s, mark) <= s.len(),
        index_of(s, mark) < s.len() ==> s[index_of(s, mark)] == mark,
        0 <= i < index_of(s, mark) ==> s[i] != mark,
        0 <= i < s.len() && s[i] == mark ==> index_of(s, mark) <= i,
{
    lemma_index_of(s, mark);
}

/// A blank line or a comment in front of a settings text does not change the
/// theme that it names.
pub proof fn law_comments_are_skipped(line: Text, rest: Text)
    requires
        forall|i: int| 0 <= i < line.len() ==> #[trigger] line[i] != '\n',
        trim(line).len() == 0 || trim(line)[0] == '#',
    ensures
        theme_in(line.push('\n') + rest) == theme_in(rest),
{
    let contents = line.push('\n') + rest;
    let end = line.len() as int;
    assert(contents[end] == '\n');
    assert forall|j: int| 0 <= j < end implies contents[j] != '\n' by {
        assert(contents[j] == line[j]);
    }
    lemma_index_is(contents, '\n', end);
    assert(contents.take(end) =~= line);
    assert(contents.skip(end + 1) =~= rest);
}

/// The first line with a key decides when its key is `theme`: the theme is what
/// stands behind the equals sign. Another key is passed over.
pub proof fn law_first_theme_line_counts(line: Text, rest: Text, at: int)
    requires
        forall|i: int| 0 <= i < line.len() ==> #[trigger] line[i] != '\n',
        trim(line) == line,
        0 <= at < line.len(),
        line[0] != '#',
        line[at] == '=',
        forall|i: int| 0 <= i < at ==> #[trigger] line[i] != '=',
    ensures
        trim(line.take(at)) == "theme"@ ==> theme_in(line.push('\n') + rest) == mode_of(
            line.skip(at + 1),
        ),
        trim(line.take(at)) != "theme"@ ==> theme_in(line.push('\n') + rest) == theme_in(rest),
{
    let contents = line.push('\n') + rest;
    let end = line.len() as int;
    assert(contents[end] == '\n');
    assert forall|j: int| 0 <= j < end implies contents[j] != '\n' by {
        assert(contents[j] == line[j]);
    }
    lemma_index_is(contents, '\n', end);
    assert(contents.take(end) =~= line);
    assert(contents.skip(end + 1) =~= rest);
    lemma_index_is(line, '=', at);
}

/// A settings file stands below its dir under its name, with one slash between
/// them. Without contents, or without a theme in them, the theme is System.
pub proof fn law_settings_file_stands_below_its_dir(dir: Text, name: Text, contents: Text)
    ensures
        dir.len() > 0 && dir.last() != '/' ==> below(dir, name).len() == dir.len() + 1 + name.len()
            && below(dir, name)[dir.len() as int] == '/',
        dir.len() > 0 && dir.last() == '/' ==> below(dir, name).len() == dir.len() + name.len(),
        below(dir, name).take(dir.len() as int) == dir,
        below(dir, name).skip(below(dir, name).len() - name.len()) == name,
        theme_or_system(None) == ThemeMode::System,
        theme_in(contents).is_none() ==> theme_or_system(Some(contents)) == ThemeMode::System,
        theme_in(contents).is_some() ==> theme_or_system(Some(contents)) == theme_in(
            contents,
        ).unwrap(),
{
    assert(below(dir, name).take(dir.len() as int) =~= dir);
    assert(below(dir, name).skip(below(dir, name).len() - name.len()) =~= name);
}

/// A theme change is owed to the file once: a change of a theme owes a write, a
/// taken write owes none, each write has a number of its own, and settings in
/// memory never owe one.
pub proof fn law_theme_change_is_written_once(settings: SettingsModel, theme: ThemeMode)
    ensures
        settings.with_theme(theme).theme == theme,
        settings.theme != theme && !settings.in_memory ==> settings.with_theme(theme).owes_write(),
        settings.theme == theme ==> settings.with_theme(theme) == settings,
        settings.in_memory ==> !settings.with_theme(theme).owes_write(),
        settings.owes_write() ==> settings.with_theme(theme).owes_write(),
        !settings.taken().owes_write(),
        settings.taken().theme == settings.theme && settings.taken().path == settings.path,
        settings.owes_write() && settings.epoch < u64::MAX ==> settings.taken().epoch
            == settings.epoch + 1 && settings.next_epoch() == settings.epoch + 1,
        !settings.owes_write() ==> settings.taken().epoch == settings.epoch,
{
}

} // verus!
