//! The capture date: three text components read out of `YYYY:MM:DD`.

use crate::error::{Failure, FileParseError};
use crate::find::{equal_to, find_from, lemma_find_from, lemma_find_from_unique};
use crate::text::{
    chars_of, find_char, first_word, first_word_bounds, is_space, lemma_first_word,
    lemma_split_at, lemma_split_none, lemma_split_nonempty, not_space, space, split, word_start,
};
use std::convert::TryFrom;
use vstd::prelude::*;
use vstd::std_specs::convert::TryFromSpecImpl;
use vstd::string::*;

verus! {

/// The character between the components of a date.
pub const FIELD_SEPARATOR: char = ':';

/// A text that can stand as one component of a date: not empty, and free
/// of separators and spaces.
pub open spec fn is_component(s: Seq<char>) -> bool {
    &&& s.len() > 0
    &&& forall|i: int| 0 <= i < s.len() ==> s[i] != FIELD_SEPARATOR && !is_space(s[i])
}

/// What a `Date` stands for: year, month and day, each as text.
pub struct CalendarDate {
    pub year: Seq<char>,
    pub month: Seq<char>,
    pub day: Seq<char>,
}

impl CalendarDate {
    /// Each of the three is a component.
    pub open spec fn well_formed(self) -> bool {
        &&& is_component(self.year)
        &&& is_component(self.month)
        &&& is_component(self.day)
    }

    /// The date written out with its separators.
    pub open spec fn text(self) -> Seq<char> {
        self.year + seq![FIELD_SEPARATOR] + self.month + seq![FIELD_SEPARATOR] + self.day
    }
}

/// The date that `text` holds: its first word must consist of exactly three
/// fields, none of them empty. Whatever follows the first word is ignored.
pub open spec fn parse_date(text: Seq<char>) -> Option<CalendarDate> {
    let fields = split(first_word(text), FIELD_SEPARATOR);
    if fields.len() == 3 && fields[0].len() > 0 && fields[1].len() > 0 && fields[2].len() > 0 {
        Some(CalendarDate { year: fields[0], month: fields[1], day: fields[2] })
    } else {
        None
    }
}

/// A capture date. The components are kept as text: they serve as names of
/// directories, and no arithmetic is done on them.
#[derive(Debug, PartialEq, Eq)]
pub struct Date {
    year: String,
    month: String,
    day: String,
}

impl View for Date {
    type V = CalendarDate;

    closed spec fn view(&self) -> CalendarDate {
        CalendarDate { year: self.year@, month: self.month@, day: self.day@ }
    }
}

impl Date {
    #[verifier::type_invariant]
    spec fn components_hold(self) -> bool {
        self@.well_formed()
    }

    /// The year, as it stood in the text.
    pub fn year(&self) -> (year: &str)
        ensures
            year@ == self@.year,
            self@.well_formed(),
    {
        proof {
            use_type_invariant(self);
        }
        self.year.as_str()
    }

    /// The month, as it stood in the text.
    pub fn month(&self) -> (month: &str)
        ensures
            month@ == self@.month,
            self@.well_formed(),
    {
        proof {
            use_type_invariant(self);
        }
        self.month.as_str()
    }

    /// The day, as it stood in the text.
    pub fn day(&self) -> (day: &str)
        ensures
            day@ == self@.day,
            self@.well_formed(),
    {
        proof {
            use_type_invariant(self);
        }
        self.day.as_str()
    }
}

impl Clone for Date {
    fn clone(&self) -> (copy: Date)
        ensures
            copy@ == self@,
    {
        proof {
            use_type_invariant(self);
        }
        Date { year: self.year.clone(), month: self.month.clone(), day: self.day.clone() }
    }
}

impl TryFrom<String> for Date {
    type Error = FileParseError;

    /// Reads a date out of the first word of `src`. Fails, handing `src`
    /// back in the error, unless that word has exactly three fields and
    /// none of them is empty.
    fn try_from(src: String) -> (r: Result<Date, FileParseError>)
        ensures
            match parse_date(src@) {
                Some(date) => r matches Ok(d) && d@ == date,
                None => r matches Err(e) && e@ == (Failure::DateFormat { text: src@ }),
            },
            split(first_word(src@), FIELD_SEPARATOR).len() != 3 ==> r is Err,
    {
        let chars = chars_of(src.as_str());
        let (start, end) = first_word_bounds(chars.as_slice());
        let first = find_char(chars.as_slice(), start, end, FIELD_SEPARATOR);
        let ghost word = first_word(src@);
        proof {
            lemma_first_word(src@);
            assert(word =~= chars@.subrange(start as int, end as int));
        }
        if first == end {
            proof {
                lemma_split_none(word, FIELD_SEPARATOR);
            }
            return Err(FileParseError::DateParseError(src));
        }
        let ghost rest = word.skip(first - start + 1);
        proof {
            lemma_split_at(word, FIELD_SEPARATOR, first - start);
            assert(rest =~= chars@.subrange(first + 1, end as int));
        }
        let second = find_char(chars.as_slice(), first + 1, end, FIELD_SEPARATOR);
        if second == end {
            proof {
                lemma_split_none(rest, FIELD_SEPARATOR);
            }
            return Err(FileParseError::DateParseError(src));
        }
        let ghost last = rest.skip(second - first);
        proof {
            lemma_split_at(rest, FIELD_SEPARATOR, second - (first + 1));
            assert(last =~= chars@.subrange(second + 1, end as int));
        }
        let third = find_char(chars.as_slice(), second + 1, end, FIELD_SEPARATOR);
        if third != end {
            proof {
                lemma_split_at(last, FIELD_SEPARATOR, third - (second + 1));
                lemma_split_nonempty(last.skip(third - second), FIELD_SEPARATOR);
            }
            return Err(FileParseError::DateParseError(src));
        }
        proof {
            lemma_split_none(last, FIELD_SEPARATOR);
            assert(split(word, FIELD_SEPARATOR) =~= seq![
                word.take(first - start),
                rest.take(second - (first + 1)),
                last,
            ]);
            assert(word.take(first - start) =~= src@.subrange(start as int, first as int));
            assert(rest.take(second - (first + 1)) =~= src@.subrange(first + 1, second as int));
            assert(last =~= src@.subrange(second + 1, end as int));
        }
        if first == start || second == first + 1 || end == second + 1 {
            return Err(FileParseError::DateParseError(src));
        }
        let text = src.as_str();
        let year = text.substring_char(start, first).to_owned();
        let month = text.substring_char(first + 1, second).to_owned();
        let day = text.substring_char(second + 1, end).to_owned();
        Ok(Date { year, month, day })
    }
}

/// A `Date` holds strings that are made when the text is read, and no
/// expression of a contract can name them beforehand: what `try_from`
/// returns is stated on `try_from` itself, through the view of the result.
impl TryFromSpecImpl<String> for Date {
    open spec fn obeys_try_from_spec() -> bool {
        false
    }

    open spec fn try_from_spec(src: String) -> Result<Date, FileParseError> {
        Err(FileParseError::DateParseError(src))
    }
}

/// A text holds the date `date` whenever it reads, behind any leading
/// spaces, `year:month:day`, and then either ends or goes on with a space
/// and anything at all behind it: a time of day that follows is ignored.
pub proof fn lemma_date_is_read(lead: Seq<char>, date: CalendarDate, tail: Seq<char>)
    requires
        forall|i: int| 0 <= i < lead.len() ==> is_space(lead[i]),
        date.well_formed(),
        tail.len() > 0 ==> is_space(tail[0]),
    ensures
        first_word(lead + date.text() + tail) == date.text(),
        parse_date(lead + date.text() + tail) == Some(date),
{
    let word = date.text();
    let s = lead + word + tail;
    let start = lead.len() as int;
    let end = start + word.len();
    assert forall|i: int| 0 <= i < word.len() implies !is_space(word[i]) by {
        if i < date.year.len() {
            assert(word[i] == date.year[i]);
        } else if i == date.year.len() {
            assert(word[i] == FIELD_SEPARATOR);
        } else if i < date.year.len() + 1 + date.month.len() {
            assert(word[i] == date.month[i - date.year.len() - 1]);
        } else if i == date.year.len() + 1 + date.month.len() {
            assert(word[i] == FIELD_SEPARATOR);
        } else {
            assert(word[i] == date.day[i - date.year.len() - date.month.len() - 2]);
        }
    }
    assert forall|i: int| 0 <= i < start implies !not_space()(#[trigger] s[i]) by {
        assert(s[i] == lead[i]);
    }
    assert(s[start] == word[0]);
    lemma_find_from_unique(s, 0, not_space(), start);
    assert forall|i: int| start <= i < end implies !space()(#[trigger] s[i]) by {
        assert(s[i] == word[i - start]);
    }
    if tail.len() > 0 {
        assert(s[end] == tail[0]);
    }
    lemma_find_from_unique(s, start, space(), end);
    assert(s.subrange(start, end) =~= word);
    lemma_text_splits(date);
}

/// A well-formed date, written out, splits into its three components.
pub proof fn lemma_text_splits(date: CalendarDate)
    requires
        date.well_formed(),
    ensures
        split(date.text(), FIELD_SEPARATOR) == seq![date.year, date.month, date.day],
{
    let word = date.text();
    let y = date.year.len() as int;
    let m = date.month.len() as int;
    assert forall|i: int| 0 <= i < y implies word[i] != FIELD_SEPARATOR by {
        assert(word[i] == date.year[i]);
    }
    lemma_split_at(word, FIELD_SEPARATOR, y);
    let rest = word.skip(y + 1);
    assert(rest =~= date.month + seq![FIELD_SEPARATOR] + date.day);
    assert forall|i: int| 0 <= i < m implies rest[i] != FIELD_SEPARATOR by {
        assert(rest[i] == date.month[i]);
    }
    lemma_split_at(rest, FIELD_SEPARATOR, m);
    assert(rest.skip(m + 1) =~= date.day);
    lemma_split_none(date.day, FIELD_SEPARATOR);
    assert(word.take(y) =~= date.year);
    assert(rest.take(m) =~= date.month);
    assert(split(word, FIELD_SEPARATOR) =~= seq![date.year, date.month, date.day]);
}

/// A text whose first word has fewer or more than three fields holds no date.
pub proof fn lemma_wrong_field_count_is_no_date(text: Seq<char>)
    requires
        split(first_word(text), FIELD_SEPARATOR).len() != 3,
    ensures
        parse_date(text) is None,
{
}

/// A date that a text holds is well-formed, and written out it is the
/// first word of that text.
pub proof fn lemma_parsed_date_is_first_word(text: Seq<char>)
    requires
        parse_date(text) is Some,
    ensures
        parse_date(text)->0.well_formed(),
        parse_date(text)->0.text() == first_word(text),
{
    let word = first_word(text);
    let date = parse_date(text)->0;
    lemma_first_word(text);
    lemma_find_from(word, 0, equal_to(FIELD_SEPARATOR));
    let a = find_from(word, 0, equal_to(FIELD_SEPARATOR));
    assert(0 <= a < word.len()) by {
        if !(0 <= a < word.len()) {
            assert(split(word, FIELD_SEPARATOR) == seq![word]);
        }
    }
    let rest = word.skip(a + 1);
    lemma_find_from(rest, 0, equal_to(FIELD_SEPARATOR));
    let b = find_from(rest, 0, equal_to(FIELD_SEPARATOR));
    assert(split(word, FIELD_SEPARATOR) == seq![word.take(a)] + split(rest, FIELD_SEPARATOR));
    assert(0 <= b < rest.len()) by {
        if !(0 <= b < rest.len()) {
            assert(split(rest, FIELD_SEPARATOR) == seq![rest]);
        }
    }
    let last = rest.skip(b + 1);
    lemma_find_from(last, 0, equal_to(FIELD_SEPARATOR));
    let c = find_from(last, 0, equal_to(FIELD_SEPARATOR));
    assert(split(rest, FIELD_SEPARATOR) == seq![rest.take(b)] + split(last, FIELD_SEPARATOR));
    assert(!(0 <= c < last.len())) by {
        if 0 <= c < last.len() {
            lemma_split_nonempty(last.skip(c + 1), FIELD_SEPARATOR);
            assert(split(last, FIELD_SEPARATOR) == seq![last.take(c)] + split(
                last.skip(c + 1),
                FIELD_SEPARATOR,
            ));
        }
    }
    assert(split(last, FIELD_SEPARATOR) == seq![last]);
    assert(date.year == word.take(a));
    assert(date.month == rest.take(b));
    assert(date.day == last);
    assert forall|i: int| 0 <= i < date.year.len() implies date.year[i] != FIELD_SEPARATOR
        && !is_space(date.year[i]) by {
        assert(!equal_to(FIELD_SEPARATOR)(word[i]));
        assert(word[i] == text[word_start(text) + i]);
    }
    assert forall|i: int| 0 <= i < date.month.len() implies date.month[i] != FIELD_SEPARATOR
        && !is_space(date.month[i]) by {
        assert(!equal_to(FIELD_SEPARATOR)(rest[i]));
        assert(rest[i] == text[word_start(text) + a + 1 + i]);
    }
    assert forall|i: int| 0 <= i < date.day.len() implies date.day[i] != FIELD_SEPARATOR
        && !is_space(date.day[i]) by {
        assert(!equal_to(FIELD_SEPARATOR)(last[i]));
        assert(last[i] == text[word_start(text) + a + 1 + b + 1 + i]);
    }
    assert(date.text() =~= word);
}

} // verus!
