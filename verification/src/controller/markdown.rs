//! A thread as markdown: each section under its heading, and the events of the thread
//! as the rows of a table. The result is intended for consumption by Reddit, but is
//! valid for any markdown flavor supporting tables.
use crate::controller::event::{Column, ColumnView, Event, EventView};
use crate::controller::section::{Section, SectionView};
use crate::controller::thread::{Thread, ThreadView};
use crate::text::{decimal, format_i64, join, joined_with, push_char, texts};
use vstd::prelude::*;
use vstd::string::*;

verus! {

/// What stands for a character in a cell of a table: a space for a line break, a bar
/// behind a backslash for a bar, and every other character for itself.
pub open spec fn escaped_char(c: char) -> Seq<char> {
    if c == '\n' {
        seq![' ']
    } else if c == '|' {
        seq!['\\', '|']
    } else {
        seq![c]
    }
}

/// A text as it stands in a cell of a table.
pub open spec fn escaped(text: Seq<char>) -> Seq<char>
    decreases text.len(),
{
    if text.len() == 0 {
        Seq::empty()
    } else {
        escaped(text.drop_last()) + escaped_char(text.last())
    }
}

/// How many whole `unit`s lie in what is left of `timestamp` once the whole `modulus`es
/// are taken off it, counted towards zero for a time before the epoch.
pub open spec fn part_of_time(timestamp: int, modulus: int, unit: int) -> int {
    if timestamp >= 0 {
        (timestamp % modulus) / unit
    } else {
        -(((-timestamp) % modulus) / unit)
    }
}

/// A number in at least two characters: a zero comes before a single digit.
pub open spec fn two_digits(n: int) -> Seq<char> {
    if 0 <= n < 10 {
        seq!['0'] + decimal(n)
    } else {
        decimal(n)
    }
}

/// The time of day of a UTC timestamp, in hours and minutes.
pub open spec fn clock(timestamp: int) -> Seq<char> {
    two_digits(part_of_time(timestamp, 86_400, 3_600)) + seq![':'] + two_digits(
        part_of_time(timestamp, 3_600, 60),
    )
}

/// Whether the column at `index` is the one that holds the UTC timestamp.
pub open spec fn is_utc_column(index: int, utc_col_index: Option<i16>) -> bool {
    utc_col_index matches Some(n) && n as int == index
}

/// What a cell shows: the time of day for a timestamp in the UTC column, the number
/// for any other number, and the text for a text.
pub open spec fn cell_text(col: ColumnView, is_utc: bool) -> Seq<char> {
    match col {
        ColumnView::Number(n) => if is_utc {
            clock(n as int)
        } else {
            decimal(n as int)
        },
        ColumnView::Text(text) => text,
        ColumnView::Other => Seq::empty(),
    }
}

/// Whether every cell of a row can be shown: the UTC column holds a number, every other
/// column a number or a text.
pub open spec fn printable(cols: Seq<ColumnView>, utc_col_index: Option<i16>) -> bool {
    forall|i: int|
        0 <= i < cols.len() ==> (#[trigger] cols[i] is Number || (cols[i] is Text && !is_utc_column(
            i,
            utc_col_index,
        )))
}

/// The cells of a row, each behind a bar.
pub open spec fn row_markdown(cols: Seq<ColumnView>, utc_col_index: Option<i16>) -> Seq<char>
    decreases cols.len(),
{
    if cols.len() == 0 {
        Seq::empty()
    } else {
        row_markdown(cols.drop_last(), utc_col_index) + seq!['|'] + escaped(
            cell_text(cols.last(), is_utc_column(cols.len() - 1, utc_col_index)),
        )
    }
}

/// An event as a row of a table: nothing for an event that is not posted.
pub open spec fn event_markdown(event: EventView, utc_col_index: Option<i16>) -> Seq<char> {
    if !event.posted {
        Seq::empty()
    } else {
        row_markdown(event.cols, utc_col_index) + "|\n"@
    }
}

/// The rows of a list of events, one after the other.
pub open spec fn events_markdown(events: Seq<Event>, utc_col_index: Option<i16>) -> Seq<char>
    decreases events.len(),
{
    if events.len() == 0 {
        Seq::empty()
    } else {
        events_markdown(events.drop_last(), utc_col_index) + event_markdown(
            events.last()@,
            utc_col_index,
        )
    }
}

/// Whether every posted event of a list can be shown.
pub open spec fn all_printable(events: Seq<Event>, utc_col_index: Option<i16>) -> bool {
    forall|i: int|
        0 <= i < events.len() && (#[trigger] events[i]).posted ==> printable(
            events[i]@.cols,
            utc_col_index,
        )
}

/// The line under the headers of a table: three dashes for each column.
pub open spec fn rule(columns: nat) -> Seq<Seq<char>> {
    Seq::new(columns, |i: int| "---"@)
}

/// A section as markdown: its name as a heading, and under it either its content or,
/// for the section that shows the events, the table of the events of its thread.
pub open spec fn section_markdown(section: SectionView, thread: ThreadView, events: Seq<Event>) -> Seq<
    char,
> {
    let heading = "# "@ + section.name + "\n"@;
    if section.is_events_section {
        heading + "|"@ + joined_with(thread.event_column_headers, "|"@) + "|\n"@ + "|"@
            + joined_with(rule(thread.event_column_headers.len()), "|"@) + "|\n"@
            + events_markdown(events, thread.space__utc_col_index)
    } else {
        heading + section.content
    }
}

/// The sections of a list as markdown, each followed by an empty line.
pub open spec fn sections_markdown(sections: Seq<Section>, thread: ThreadView, events: Seq<Event>) -> Seq<
    char,
>
    decreases sections.len(),
{
    if sections.len() == 0 {
        Seq::empty()
    } else {
        sections_markdown(sections.drop_last(), thread, events) + section_markdown(
            sections.last()@,
            thread,
            events,
        ) + "\n\n"@
    }
}

/// Appends a text as it stands in a cell of a table.
fn append_escaped(md: &mut String, text: &str)
    ensures
        final(md)@ == old(md)@ + escaped(text@),
{
    let ghost start = md@;
    for c in iter: text.chars()
        invariant
            iter.seq() == text@,
            md@ == start + escaped(iter.seq().subrange(0, iter.index() as int)),
    {
        let ghost done = iter.seq().subrange(0, iter.index() as int);
        let ghost more = iter.seq().subrange(0, iter.index() + 1);
        proof {
            assert(more.drop_last() =~= done);
            assert(more.last() == c);
        }
        if c == '\n' {
            push_char(md, ' ');
        } else if c == '|' {
            push_char(md, '\\');
            push_char(md, '|');
        } else {
            push_char(md, c);
        }
        assert(md@ =~= start + escaped(more));
    }
    assert(text@.subrange(0, text@.len() as int) =~= text@);
}

/// A number in at least two characters.
fn format_two_digits(n: i64) -> (text: String)
    ensures
        text@ == two_digits(n as int),
{
    if 0 <= n && n < 10 {
        let mut text = "0".to_owned();
        proof {
            reveal_strlit("0");
        }
        text.append(format_i64(n).as_str());
        assert(text@ =~= two_digits(n as int));
        text
    } else {
        format_i64(n)
    }
}

/// How many whole `unit`s lie in what is left of `timestamp` once the whole `modulus`es
/// are taken off it.
fn time_part(timestamp: i64, modulus: u64, unit: u64) -> (part: i64)
    requires
        0 < unit <= modulus <= 86_400,
    ensures
        part == part_of_time(timestamp as int, modulus as int, unit as int),
{
    if timestamp >= 0 {
        let rest: u64 = (timestamp as u64) % modulus;
        (rest / unit) as i64
    } else {
        let magnitude: u64 = (-(timestamp as i128)) as u64;
        let rest: u64 = magnitude % modulus;
        -((rest / unit) as i64)
    }
}

/// The time of day of a UTC timestamp, in hours and minutes.
pub fn format_clock(timestamp: i64) -> (text: String)
    ensures
        text@ == clock(timestamp as int),
{
    let mut text = format_two_digits(time_part(timestamp, 86_400, 3_600));
    text.append(":");
    proof {
        reveal_strlit(":");
        assert(":"@ =~= seq![':']);
    }
    text.append(format_two_digits(time_part(timestamp, 3_600, 60)).as_str());
    text
}

impl Event {
    /// The event as a row of a table of markdown, with the time of day in the column that
    /// holds the UTC timestamp. An event that is not posted gives no row.
    ///
    /// A posted event is expected to hold a number in the UTC column and a number or a
    /// text in every other column.
    pub fn to_markdown(&self, utc_col_index: Option<i16>) -> (md: String)
        requires
            self.posted ==> printable(self@.cols, utc_col_index),
        ensures
            md@ == event_markdown(self@, utc_col_index),
    {
        let mut md = String::new();
        if !self.posted {
            return md;
        }
        let ghost cols = self@.cols;
        let mut i: usize = 0;
        proof {
            assert(cols.subrange(0, 0) =~= Seq::<ColumnView>::empty());
        }
        while i < self.cols.len()
            invariant
                i <= self.cols.len(),
                cols == self@.cols,
                cols.len() == self.cols@.len(),
                printable(cols, utc_col_index),
                md@ == row_markdown(cols.subrange(0, i as int), utc_col_index),
            decreases self.cols.len() - i,
        {
            let is_utc: bool = match utc_col_index {
                Some(n) => n >= 0 && n as usize == i,
                None => false,
            };
            proof {
                let more = cols.subrange(0, i + 1);
                assert(more.drop_last() =~= cols.subrange(0, i as int));
                assert(more.last() == cols[i as int]);
                assert(cols[i as int] == self.cols@[i as int]@);
                assert(is_utc == is_utc_column(i as int, utc_col_index));
                assert(cols[i as int] is Number || cols[i as int] is Text);
            }
            md.append("|");
            proof {
                reveal_strlit("|");
                assert("|"@ =~= seq!['|']);
            }
            match &self.cols[i] {
                Column::Number(n) => {
                    // If the column in question is the designated UTC timestamp,
                    // format it as such.
                    let cell = if is_utc {
                        format_clock(*n)
                    } else {
                        format_i64(*n)
                    };
                    append_escaped(&mut md, cell.as_str());
                },
                Column::Text(text) => {
                    append_escaped(&mut md, text.as_str());
                },
                Column::Other => {},
            }
            assert(md@ =~= row_markdown(cols.subrange(0, i + 1), utc_col_index));
            i += 1;
        }
        proof {
            assert(cols.subrange(0, i as int) =~= cols);
        }
        md.append("|\n");
        md
    }
}

/// Three dashes for each of `columns` columns.
fn rule_of(columns: usize) -> (dashes: Vec<String>)
    ensures
        texts(dashes@) == rule(columns as nat),
{
    let mut dashes: Vec<String> = Vec::new();
    let mut i: usize = 0;
    while i < columns
        invariant
            i <= columns,
            dashes@.len() == i,
            forall|k: int| 0 <= k < i ==> (#[trigger] dashes@[k])@ == "---"@,
        decreases columns - i,
    {
        dashes.push("---".to_owned());
        i += 1;
    }
    assert(texts(dashes@) =~= rule(columns as nat));
    dashes
}

impl Section {
    /// Convert the `Section` object to valid markdown. `thread` is the thread of the
    /// section, and `events` are the events of that thread in the thread's order.
    ///
    /// The posted events are expected to hold what the columns of the thread hold.
    pub fn to_markdown(&self, thread: &Thread, events: &Vec<Event>) -> (md: String)
        requires
            self.is_events_section ==> all_printable(events@, thread.space__utc_col_index),
        ensures
            md@ == section_markdown(self@, thread@, events@),
    {
        let mut md = "# ".to_owned();
        md.append(self.name.as_str());
        md.append("\n");
        if self.is_events_section {
            md.append("|");
            md.append(join(&thread.event_column_headers, "|").as_str());
            md.append("|\n");
            md.append("|");
            md.append(join(&rule_of(thread.event_column_headers.len()), "|").as_str());
            md.append("|\n");
            let ghost head = md@;
            let utc_col_index = thread.space__utc_col_index;
            let mut i: usize = 0;
            proof {
                assert(events@.subrange(0, 0) =~= Seq::<Event>::empty());
                assert(md@ =~= head + events_markdown(events@.subrange(0, 0), utc_col_index));
            }
            while i < events.len()
                invariant
                    i <= events.len(),
                    all_printable(events@, utc_col_index),
                    md@ == head + events_markdown(events@.subrange(0, i as int), utc_col_index),
                decreases events.len() - i,
            {
                proof {
                    let more = events@.subrange(0, i + 1);
                    assert(more.drop_last() =~= events@.subrange(0, i as int));
                    assert(more.last() == events@[i as int]);
                    assert(events@[i as int].posted ==> printable(
                        events@[i as int]@.cols,
                        utc_col_index,
                    ));
                }
                md.append(events[i].to_markdown(utc_col_index).as_str());
                assert(md@ =~= head + events_markdown(events@.subrange(0, i + 1), utc_col_index));
                i += 1;
            }
            proof {
                assert(events@.subrange(0, i as int) =~= events@);
            }
        } else {
            md.append(self.content.as_str());
        }
        md
    }
}

impl Thread {
    /// The thread as markdown: its sections one after the other, each followed by an
    /// empty line. `sections` are the sections of the thread in the thread's order, and
    /// `events` its events in the thread's order.
    ///
    /// The posted events are expected to hold what the columns of the thread hold.
    pub fn to_markdown(&self, sections: &Vec<Section>, events: &Vec<Event>) -> (md: String)
        requires
            all_printable(events@, self.space__utc_col_index),
        ensures
            md@ == sections_markdown(sections@, self@, events@),
    {
        let mut md = String::new();
        let mut i: usize = 0;
        proof {
            assert(sections@.subrange(0, 0) =~= Seq::<Section>::empty());
        }
        while i < sections.len()
            invariant
                i <= sections.len(),
                all_printable(events@, self.space__utc_col_index),
                md@ == sections_markdown(sections@.subrange(0, i as int), self@, events@),
            decreases sections.len() - i,
        {
            proof {
                let more = sections@.subrange(0, i + 1);
                assert(more.drop_last() =~= sections@.subrange(0, i as int));
                assert(more.last() == sections@[i as int]);
            }
            md.append(sections[i].to_markdown(self, events).as_str());
            md.append("\n\n");
            assert(md@ =~= sections_markdown(sections@.subrange(0, i + 1), self@, events@));
            i += 1;
        }
        proof {
            assert(sections@.subrange(0, i as int) =~= sections@);
        }
        md
    }
}

} // verus!
