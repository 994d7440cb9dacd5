//! The wallpaper schedule: a default picture for each weekday, pictures for
//! single calendar dates, and pictures for time windows on a weekday.

use crate::clock::Weekday;
use vstd::prelude::*;

verus! {

/// The default picture of each weekday.
#[derive(Clone, Debug, PartialEq, Eq)]
pub struct Days {
    pub monday: String,
    pub tuesday: String,
    pub wednesday: String,
    pub thursday: String,
    pub friday: String,
    pub saturday: String,
    pub sunday: String,
}

/// The default picture of each weekday, as text.
pub struct DaysView {
    pub monday: Seq<char>,
    pub tuesday: Seq<char>,
    pub wednesday: Seq<char>,
    pub thursday: Seq<char>,
    pub friday: Seq<char>,
    pub saturday: Seq<char>,
    pub sunday: Seq<char>,
}

impl DaysView {
    /// The picture that `weekday` shows by default.
    pub open spec fn on(self, weekday: Weekday) -> Seq<char> {
        match weekday {
            Weekday::Monday => self.monday,
            Weekday::Tuesday => self.tuesday,
            Weekday::Wednesday => self.wednesday,
            Weekday::Thursday => self.thursday,
            Weekday::Friday => self.friday,
            Weekday::Saturday => self.saturday,
            Weekday::Sunday => self.sunday,
        }
    }
}

impl View for Days {
    type V = DaysView;

    open spec fn view(&self) -> DaysView {
        DaysView {
            monday: self.monday@,
            tuesday: self.tuesday@,
            wednesday: self.wednesday@,
            thursday: self.thursday@,
            friday: self.friday@,
            saturday: self.saturday@,
            sunday: self.sunday@,
        }
    }
}

impl Days {
    /// The picture that `weekday` shows by default.
    pub fn url_for(&self, weekday: Weekday) -> (url: &String)
        ensures
            url@ == self@.on(weekday),
    {
        match weekday {
            Weekday::Monday => &self.monday,
            Weekday::Tuesday => &self.tuesday,
            Weekday::Wednesday => &self.wednesday,
            Weekday::Thursday => &self.thursday,
            Weekday::Friday => &self.friday,
            Weekday::Saturday => &self.saturday,
            Weekday::Sunday => &self.sunday,
        }
    }
}

/// A picture for a time window on one weekday. The window runs from `start`
/// up to, but not including, `end`; both are written `HH:MM`.
#[derive(Clone, Debug, PartialEq, Eq)]
pub struct SpecialPeriod {
    pub day: String,
    pub start: String,
    pub end: String,
    pub url: String,
}

/// A period of the schedule, as text.
pub struct PeriodView {
    pub day: Seq<char>,
    pub start: Seq<char>,
    pub end: Seq<char>,
    pub url: Seq<char>,
}

impl View for SpecialPeriod {
    type V = PeriodView;

    open spec fn view(&self) -> PeriodView {
        PeriodView { day: self.day@, start: self.start@, end: self.end@, url: self.url@ }
    }
}

/// The periods of a schedule, as text and in their order.
pub open spec fn periods_view(periods: Seq<SpecialPeriod>) -> Seq<PeriodView> {
    periods.map_values(|period: SpecialPeriod| period@)
}

/// One line of a [`UrlTable`].
#[derive(Clone, Debug, PartialEq, Eq)]
pub struct UrlEntry {
    pub key: String,
    pub url: String,
}

/// One line of a table, as text.
pub struct EntryView {
    pub key: Seq<char>,
    pub url: Seq<char>,
}

impl View for UrlEntry {
    type V = EntryView;

    open spec fn view(&self) -> EntryView {
        EntryView { key: self.key@, url: self.url@ }
    }
}

/// The lines of a table, as text and in their order.
pub open spec fn entries_view(entries: Seq<UrlEntry>) -> Seq<EntryView> {
    entries.map_values(|entry: UrlEntry| entry@)
}

/// The mapping that a sequence of lines stands for. Where a key occurs more
/// than once, its first line counts.
pub open spec fn table_of(lines: Seq<EntryView>) -> Map<Seq<char>, Seq<char>>
    decreases lines.len(),
{
    if lines.len() == 0 {
        Map::empty()
    } else {
        let earlier = table_of(lines.drop_last());
        if earlier.contains_key(lines.last().key) {
            earlier
        } else {
            earlier.insert(lines.last().key, lines.last().url)
        }
    }
}

/// No key occurs in two lines.
pub open spec fn distinct_keys(lines: Seq<EntryView>) -> bool {
    forall|i: int, j: int|
        0 <= i < j < lines.len() ==> (#[trigger] lines[i]).key != (#[trigger] lines[j]).key
}

/// A key of the table is the key of one of the lines.
pub proof fn lemma_table_keys(lines: Seq<EntryView>, key: Seq<char>)
    ensures
        table_of(lines).contains_key(key) <==> exists|i: int|
            0 <= i < lines.len() && (#[trigger] lines[i]).key == key,
    decreases lines.len(),
{
    if lines.len() > 0 {
        let front = lines.drop_last();
        lemma_table_keys(front, key);
        lemma_table_keys(front, lines.last().key);
        if exists|i: int| 0 <= i < lines.len() && (#[trigger] lines[i]).key == key {
            let i = choose|i: int| 0 <= i < lines.len() && (#[trigger] lines[i]).key == key;
            if i < front.len() {
                assert(front[i].key == key);
            }
        }
    }
}

/// The table maps a key to the picture of the first line that has this key.
pub proof fn lemma_table_first_entry(lines: Seq<EntryView>, index: int)
    requires
        0 <= index < lines.len(),
        forall|j: int| 0 <= j < index ==> (#[trigger] lines[j]).key != lines[index].key,
    ensures
        table_of(lines).contains_key(lines[index].key),
        table_of(lines)[lines[index].key] == lines[index].url,
    decreases lines.len(),
{
    let front = lines.drop_last();
    if index == lines.len() - 1 {
        lemma_table_keys(front, lines[index].key);
    } else {
        lemma_table_first_entry(front, index);
    }
}

/// Where no key occurs twice, the table has as many keys as there are lines.
pub proof fn lemma_table_size(lines: Seq<EntryView>)
    requires
        distinct_keys(lines),
    ensures
        table_of(lines).dom().finite(),
        table_of(lines).dom().len() == lines.len(),
    decreases lines.len(),
{
    if lines.len() > 0 {
        let front = lines.drop_last();
        lemma_table_size(front);
        lemma_table_keys(front, lines.last().key);
    }
}

/// Replacing the picture of the first line that has a key changes the table
/// at this key alone.
proof fn lemma_replace_first_entry(lines: Seq<EntryView>, index: int, line: EntryView)
    requires
        0 <= index < lines.len(),
        line.key == lines[index].key,
        forall|j: int| 0 <= j < index ==> (#[trigger] lines[j]).key != line.key,
    ensures
        table_of(lines.update(index, line)) == table_of(lines).insert(line.key, line.url),
    decreases lines.len(),
{
    let updated = lines.update(index, line);
    let front = lines.drop_last();
    if index == lines.len() - 1 {
        assert(updated.drop_last() == front);
        lemma_table_keys(front, line.key);
    } else {
        assert(updated.drop_last() == front.update(index, line));
        lemma_replace_first_entry(front, index, line);
        lemma_table_keys(front, line.key);
    }
}

/// A finite mapping from text keys to picture addresses.
///
/// It is kept as a vector of lines and searched line by line: the hash map of
/// the standard library has no usable contract for keys that are strings, and
/// the tables of a schedule are short.
#[derive(Clone, Debug, PartialEq, Eq)]
pub struct UrlTable {
    entries: Vec<UrlEntry>,
}

impl View for UrlTable {
    type V = Map<Seq<char>, Seq<char>>;

    closed spec fn view(&self) -> Map<Seq<char>, Seq<char>> {
        table_of(entries_view(self.entries@))
    }
}

impl UrlTable {
    /// The lines, in the order in which their keys first came in.
    pub closed spec fn lines(self) -> Seq<EntryView> {
        entries_view(self.entries@)
    }

    /// No key is held twice.
    pub closed spec fn wf(self) -> bool {
        distinct_keys(entries_view(self.entries@))
    }

    /// The table is the mapping of its lines.
    pub proof fn lemma_view_of_lines(self)
        ensures
            self@ == table_of(self.lines()),
            self.wf() == distinct_keys(self.lines()),
    {
    }

    /// The empty table.
    pub fn new() -> (table: UrlTable)
        ensures
            table@ == Map::<Seq<char>, Seq<char>>::empty(),
            table.lines().len() == 0,
            table.wf(),
    {
        UrlTable { entries: Vec::new() }
    }

    /// Number of lines, which is the number of keys where no key is held
    /// twice.
    pub fn len(&self) -> (count: usize)
        ensures
            count == self.lines().len(),
            self.wf() ==> self@.dom().finite() && count == self@.dom().len(),
    {
        proof {
            if self.wf() {
                lemma_table_size(entries_view(self.entries@));
            }
        }
        self.entries.len()
    }

    /// The lines of the table, in the order in which their keys came in.
    pub fn entries(&self) -> (entries: &Vec<UrlEntry>)
        ensures
            entries_view(entries@) == self.lines(),
    {
        &self.entries
    }

    /// The picture stored under `key`, if there is one.
    pub fn get(&self, key: &String) -> (url: Option<&String>)
        ensures
            url is Some <==> self@.contains_key(key@),
            url matches Some(found) ==> found@ == self@[key@],
    {
        let ghost lines = entries_view(self.entries@);
        let mut i: usize = 0;
        while i < self.entries.len()
            invariant
                i <= self.entries.len(),
                lines == entries_view(self.entries@),
                forall|j: int| 0 <= j < i ==> (#[trigger] lines[j]).key != key@,
            decreases self.entries.len() - i,
        {
            if self.entries[i].key == *key {
                proof {
                    lemma_table_first_entry(lines, i as int);
                }
                return Some(&self.entries[i].url);
            }
            i += 1;
        }
        proof {
            lemma_table_keys(lines, key@);
        }
        None
    }

    /// Stores `url` under `key`, in place of what was stored there before.
    pub fn insert(&mut self, key: String, url: String)
        ensures
            final(self)@ == old(self)@.insert(key@, url@),
            old(self).wf() ==> final(self).wf(),
    {
        let ghost lines = entries_view(self.entries@);
        let ghost line = EntryView { key: key@, url: url@ };
        let mut i: usize = 0;
        while i < self.entries.len()
            invariant
                i <= self.entries.len(),
                self.entries@ == old(self).entries@,
                lines == entries_view(self.entries@),
                line == (EntryView { key: key@, url: url@ }),
                forall|j: int| 0 <= j < i ==> (#[trigger] lines[j]).key != key@,
            decreases self.entries.len() - i,
        {
            if self.entries[i].key == key {
                self.entries.set(i, UrlEntry { key, url });
                proof {
                    assert(entries_view(self.entries@) == lines.update(i as int, line));
                    lemma_replace_first_entry(lines, i as int, line);
                }
                return;
            }
            i += 1;
        }
        self.entries.push(UrlEntry { key, url });
        proof {
            assert(entries_view(self.entries@) == lines.push(line));
            assert(lines.push(line).drop_last() == lines);
            lemma_table_keys(lines, line.key);
        }
    }
}

/// The pictures of the schedule.
#[derive(Clone, Debug, PartialEq, Eq)]
pub struct Wallpapers {
    /// The default picture of each weekday.
    pub days: Days,
    /// Pictures for single calendar dates, keyed `MM-DD`.
    pub dates: UrlTable,
    /// Pictures for time windows; where several windows hold, the first wins.
    pub periods: Vec<SpecialPeriod>,
}

/// The pictures of the schedule, as mathematical values.
pub struct WallpapersView {
    pub days: DaysView,
    pub dates: Map<Seq<char>, Seq<char>>,
    pub periods: Seq<PeriodView>,
}

impl View for Wallpapers {
    type V = WallpapersView;

    open spec fn view(&self) -> WallpapersView {
        WallpapersView {
            days: self.days@,
            dates: self.dates@,
            periods: periods_view(self.periods@),
        }
    }
}

/// A schedule as it is loaded: never changed in part, only replaced whole.
#[derive(Clone, Debug, PartialEq, Eq)]
pub struct Config {
    pub wallpapers: Wallpapers,
    /// Named addresses that the schedule may refer to.
    pub special_urls: UrlTable,
}

/// A schedule, as a mathematical value.
pub struct ConfigView {
    pub wallpapers: WallpapersView,
    pub special_urls: Map<Seq<char>, Seq<char>>,
}

impl View for Config {
    type V = ConfigView;

    open spec fn view(&self) -> ConfigView {
        ConfigView { wallpapers: self.wallpapers@, special_urls: self.special_urls@ }
    }
}

/// The schedule that is held, as a mathematical value.
pub open spec fn config_view(config: Option<Config>) -> Option<ConfigView> {
    match config {
        Some(config) => Some(config@),
        None => None,
    }
}

} // verus!
