//! The timetable of one study group: which page to read, the week it shows, the
//! fingerprint of a stored week, and the text of a week or a day.
use vstd::prelude::*;
use vstd::string::StringSliceAdditionalSpecFns;
use vstd::utf8::{encode_utf8, is_char_boundary};
use crate::date::Date;
use crate::page::{read_week, strings_view, week_of_page};
use crate::scrape::{css_texts, scraped_page, scrape_week_page, select_texts};
use crate::text::{
    decimal_seq, decimal_string, parse_u8, parse_u8_bytes, trim, trim_seq,
};
use crate::timetable::{
    Day, DayText, day_block, day_texts, lemma_week_blocks_empty, push_day_block, week_blocks,
    week_blocks_text,
};

verus! {

/// The timetable of one study group: the address of its page and the date shown.
#[derive(Clone, Debug)]
pub struct Schedule {
    pub date: Date,
    pub url: String,
}

/// The address of the page that shows week `date.week` and weekday `date.weekday`
/// of the timetable at `url`; a field that is 0 is left out.
pub open spec fn page_url_of(url: Seq<char>, date: Date) -> Seq<char> {
    url + (if date.week != 0 {
        "&selectedWeek="@ + decimal_seq(date.week as nat)
    } else {
        Seq::<char>::empty()
    }) + (if date.weekday != 0 {
        "&selectedWeekday="@ + decimal_seq(date.weekday as nat)
    } else {
        Seq::<char>::empty()
    })
}

/// The answer to a timetable that could not be read back.
pub open spec fn unreadable_text() -> Seq<char> {
    "Ошибка при чтении расписания\nПередайте разрабу, что он бездарен"@
}

/// The message for a week: the blocks of its days with lessons, or a note that the
/// week has none.
pub open spec fn week_message(days: Seq<DayText>) -> Seq<char> {
    if week_blocks(days).len() == 0 {
        "На эту неделю расписания нет."@
    } else {
        week_blocks(days)
    }
}

/// The message for weekday `weekday` (from 1) of a week: that day's block, or a note
/// that there is none where the week has fewer days.
pub open spec fn day_message(days: Seq<DayText>, weekday: u8) -> Seq<char> {
    if weekday - 1 < days.len() {
        day_block(days[weekday - 1])
    } else {
        "На этот день расписания нет."@
    }
}

/// The message for a stored week, or the error text where it could not be read.
pub open spec fn stored_week_message(week: Option<Seq<DayText>>) -> Seq<char> {
    match week {
        Some(days) => week_message(days),
        None => unreadable_text(),
    }
}

/// The message for a day of a stored week, or the error text where it could not be read.
pub open spec fn stored_day_message(week: Option<Seq<DayText>>, weekday: u8) -> Seq<char> {
    match week {
        Some(days) => day_message(days, weekday),
        None => unreadable_text(),
    }
}

/// The texts of an optional week.
pub open spec fn week_view(week: Option<Vec<Day>>) -> Option<Seq<DayText>> {
    match week {
        Some(days) => Some(day_texts(days@)),
        None => None,
    }
}

/// A week without lessons is answered with the note that there is no timetable;
/// a week with lessons is answered with the blocks of its days, which are never empty.
pub proof fn lemma_week_message_cases(days: Seq<DayText>)
    ensures
        (forall|i: int| 0 <= i < days.len() ==> #[trigger] days[i].lessons.len() == 0)
            ==> week_message(days) == "На эту неделю расписания нет."@,
        (exists|i: int| 0 <= i < days.len() && #[trigger] days[i].lessons.len() > 0)
            ==> week_message(days) == week_blocks(days) && week_blocks(days).len() > 0,
{
    lemma_week_blocks_empty(days);
}

/// Weekday `w` (1 = Monday) shows the block of the `w`-th day of the week, for every
/// day the week has; only a weekday past the week's last day is answered with the
/// note that there is no timetable.
pub proof fn lemma_day_message_picks_day(days: Seq<DayText>, w: u8)
    requires
        w >= 1,
    ensures
        w <= days.len() ==> day_message(days, w) == day_block(days[w - 1]),
        w > days.len() ==> day_message(days, w) == "На этот день расписания нет."@,
{
}

/// A timetable with neither week nor weekday chosen is read from its own address,
/// with nothing added.
pub proof fn lemma_unchosen_date_reads_bare_url(url: Seq<char>)
    ensures
        page_url_of(url, Date { week: 0, weekday: 0 }) == url,
{
    assert(page_url_of(url, Date { week: 0, weekday: 0 }) =~= url);
}

/// The XXH3 64-bit hash of `data` (seed 0).
pub uninterp spec fn xxh3_64_of(data: Seq<u8>) -> u64;

/// Calls `xxhash_rust::const_xxh3::xxh3_64`; its result is named [`xxh3_64_of`].
#[verifier::external_body]
fn xxh3_64(data: &[u8]) -> (h: u64)
    ensures
        h == xxh3_64_of(data@),
{
    xxhash_rust::const_xxh3::xxh3_64(data)
}

/// The two's-complement reading of a 64-bit pattern (what `as i64` does).
pub open spec fn as_signed(h: u64) -> i64 {
    if h <= 0x7fff_ffff_ffff_ffff {
        h as i64
    } else {
        (h - 0x1_0000_0000_0000_0000) as i64
    }
}

/// The fingerprint of a stored week: the XXH3 hash of its JSON bytes, as a signed
/// number (the database column is `BIGINT`).
pub open spec fn week_hash(json: Seq<u8>) -> i64 {
    as_signed(xxh3_64_of(json))
}

/// The fingerprint of the JSON bytes of a week.
pub fn compute_hash(json: &[u8]) -> (r: i64)
    ensures
        r == week_hash(json@),
{
    let h = xxh3_64(json);
    if h <= 0x7fff_ffff_ffff_ffff {
        h as i64
    } else {
        let low: u64 = h - 0x8000_0000_0000_0000;
        (low as i64) - 0x7fff_ffff_ffff_ffff - 1
    }
}

/// The offset of the university's time zone (Samara, UTC+4) east of UTC, in seconds.
pub open spec fn samara_offset() -> int {
    14400
}

/// The day of the week, from Monday = 1 to Sunday = 7, at the instant `t` (seconds
/// since 1970-01-01 00:00 UTC, a Thursday) in the time zone `offset` seconds east
/// of UTC.
pub open spec fn weekday_at(t: int, offset: int) -> int {
    ((t + offset) / 86400 + 3) % 7 + 1
}

proof fn lemma_shifted_days(x: int, m: int)
    requires
        m >= 0,
    ensures
        (x + 86400 * (7 * m)) / 86400 == x / 86400 + 7 * m,
        ((x + 86400 * (7 * m)) / 86400 + 3) % 7 == (x / 86400 + 3) % 7,
{
    assert((x + 86400 * (7 * m)) / 86400 == x / 86400 + 7 * m) by (nonlinear_arith);
    assert((x / 86400 + 3 + 7 * m) % 7 == (x / 86400 + 3) % 7) by (nonlinear_arith);
}

/// The day of the week at the instant `now` (seconds since the Unix epoch) in the
/// university's time zone.
pub fn weekday_in_samara(now: i64) -> (w: u8)
    ensures
        w as int == weekday_at(now as int, samara_offset()),
        1 <= w <= 7,
{
    // A whole number of weeks moves every instant to a non-negative count of seconds
    // without changing its weekday.
    let shift: i128 = 604800 * 17592186044416;
    let shifted: i128 = now as i128 + 14400 + shift;
    let seconds: u128 = shifted as u128;
    let days: u128 = seconds / 86400;
    let w: u128 = (days + 3) % 7 + 1;
    proof {
        lemma_shifted_days(now + 14400, 17592186044416);
    }
    w as u8
}

/// The week number in the label of the current week: the label's first two bytes
/// read as a number, or 0 where they are not one.
pub open spec fn week_of_label(bytes: Seq<u8>) -> u16 {
    match parse_u8_bytes(bytes.subrange(0, 2)) {
        Some(n) => n as u16,
        None => 0,
    }
}

/// The first two bytes of `bytes` can be cut off as a string: there are at least
/// two, and the second ends a character.
pub open spec fn label_has_two_bytes(bytes: Seq<u8>) -> bool {
    is_char_boundary(bytes, 2)
}

/// The trimmed texts of the current-week elements, joined.
pub open spec fn week_label(labels: Seq<Seq<char>>) -> Seq<char>
    decreases labels.len(),
{
    if labels.len() == 0 {
        Seq::<char>::empty()
    } else {
        week_label(labels.drop_last()) + trim_seq(labels.last())
    }
}

/// Why the current week could not be read from a page.
#[derive(Clone, Copy, Debug, PartialEq, Eq, Structural)]
pub enum WeekLabelError {
    /// A selector did not parse.
    Selector,
    /// The label is shorter than two bytes, or its second character is cut.
    TooShort,
}

/// The page to read next for the chosen week.
#[derive(Clone, Copy, Debug, PartialEq, Eq, Structural)]
pub enum Fetch {
    /// The timetable's own page, to learn which week is current.
    CurrentWeek,
    /// The page of the chosen week and weekday.
    WeekPage,
}

/// How an attempt to read and store a week ended.
#[derive(Clone, Copy, Debug, PartialEq, Eq, Structural)]
pub enum Attempt {
    /// The site could not be read.
    ReadFailed,
    /// The week was read but could not be stored.
    StoreFailed,
    /// The week was read and stored.
    Stored,
}

/// The seconds to wait before trying again after an attempt, or `None` to stop:
/// every failure is retried after one second, without end; a stored week stops.
pub open spec fn retry_delay_of(a: Attempt) -> Option<u64> {
    match a {
        Attempt::Stored => None,
        _ => Some(1),
    }
}

/// The seconds to wait before trying again after attempt `a`, or `None` to stop.
pub fn retry_delay(a: Attempt) -> (r: Option<u64>)
    ensures
        r == retry_delay_of(a),
{
    match a {
        Attempt::Stored => None,
        _ => Some(1),
    }
}

impl Schedule {
    /// The timetable at `url`, with neither week nor weekday chosen.
    pub fn new(url: String) -> (s: Schedule)
        ensures
            s.date.week == 0,
            s.date.weekday == 0,
            s.url@ == url@,
    {
        Schedule { date: Date::new(), url }
    }

    /// The page to read next: where no week is chosen, first the current week is
    /// learnt from the timetable's own page.
    pub fn next_fetch(&self) -> (f: Fetch)
        ensures
            f == (if self.date.week == 0 {
                Fetch::CurrentWeek
            } else {
                Fetch::WeekPage
            }),
    {
        if self.date.week == 0 {
            Fetch::CurrentWeek
        } else {
            Fetch::WeekPage
        }
    }

    /// The address of the page for the chosen week and weekday.
    pub fn page_url(&self) -> (r: String)
        ensures
            r@ == page_url_of(self.url@, self.date),
    {
        let mut r = self.url.clone();
        if self.date.week != 0 {
            r.append("&selectedWeek=");
            let w = decimal_string(self.date.week as u64);
            r.append(w.as_str());
        }
        if self.date.weekday != 0 {
            r.append("&selectedWeekday=");
            let d = decimal_string(self.date.weekday as u64);
            r.append(d.as_str());
        }
        assert(r@ =~= page_url_of(self.url@, self.date));
        r
    }

    /// Where no weekday is chosen, takes the weekday of the instant `now` (seconds
    /// since the Unix epoch) in the university's time zone.
    pub fn fill_in_today(&mut self, now: i64)
        ensures
            final(self).url == old(self).url,
            final(self).date.week == old(self).date.week,
            old(self).date.weekday != 0 ==> final(self).date.weekday == old(self).date.weekday,
            old(self).date.weekday == 0 ==> final(self).date.weekday as int == weekday_at(
                now as int,
                samara_offset(),
            ),
            old(self).date.weekday == 0 ==> 1 <= final(self).date.weekday <= 7,
    {
        if self.date.weekday == 0 {
            self.date.weekday = weekday_in_samara(now);
        }
    }

    /// Whether a stored week with fingerprint `old_hash` differs from the week whose
    /// JSON bytes are `json`.
    pub fn is_changed(&self, old_hash: i64, json: &[u8]) -> (b: bool)
        ensures
            b == (old_hash != week_hash(json@)),
    {
        old_hash != compute_hash(json)
    }

    /// The message for the stored week `week` (`None`: it could not be read back).
    pub fn format_week(&self, week: &Option<Vec<Day>>) -> (r: String)
        ensures
            r@ == stored_week_message(week_view(*week)),
    {
        match week {
            None => String::from_str("Ошибка при чтении расписания\nПередайте разрабу, что он бездарен"),
            Some(days) => {
                let text = week_blocks_text(days);
                if text.as_str().is_empty() {
                    String::from_str("На эту неделю расписания нет.")
                } else {
                    text
                }
            },
        }
    }

    /// The message for the chosen weekday of the stored week `week`.
    pub fn format_day(&self, week: &Option<Vec<Day>>) -> (r: String)
        requires
            week is Some ==> self.date.weekday >= 1,
        ensures
            r@ == stored_day_message(week_view(*week), self.date.weekday),
            *week matches Some(days) ==> (1 <= self.date.weekday <= days@.len() ==> r@ == day_block(
                day_texts(days@)[self.date.weekday - 1],
            )),
            *week matches Some(days) ==> (self.date.weekday > days@.len() ==> r@
                == "На этот день расписания нет."@),
    {
        match week {
            None => String::from_str("Ошибка при чтении расписания\nПередайте разрабу, что он бездарен"),
            Some(days) => {
                let i = (self.date.weekday - 1) as usize;
                if i < days.len() {
                    let mut text = String::new();
                    push_day_block(&mut text, &days[i]);
                    assert(text@ =~= day_block(day_texts(days@)[i as int]));
                    text
                } else {
                    String::from_str("На этот день расписания нет.")
                }
            },
        }
    }
}

/// Reads the week that a timetable page shows; `None` where a selector query fails.
pub fn parse_week_page(html: &str) -> (r: Option<Vec<Day>>)
    ensures
        match r {
            Some(days) => scraped_page(html@) is Some && day_texts(days@) == week_of_page(
                scraped_page(html@)->0,
            ),
            None => scraped_page(html@) is None,
        },
{
    match scrape_week_page(html) {
        Some(page) => Some(read_week(&page)),
        None => None,
    }
}

/// The week number in a current-week label whose first two bytes can be cut off.
pub fn week_number(label: &str) -> (w: u16)
    requires
        label_has_two_bytes(label.spec_bytes()),
    ensures
        w == week_of_label(label.spec_bytes()),
{
    let (head, _rest) = label.split_at(2);
    match parse_u8(head) {
        Some(n) => n as u16,
        None => 0,
    }
}

/// The trimmed texts of the current-week elements, joined.
pub fn join_week_labels(labels: &Vec<String>) -> (r: String)
    ensures
        r@ == week_label(strings_view(labels@)),
{
    let ghost lv = strings_view(labels@);
    let mut r = String::new();
    let mut i: usize = 0;
    while i < labels.len()
        invariant
            i <= labels@.len(),
            lv == strings_view(labels@),
            r@ == week_label(lv.take(i as int)),
        decreases labels@.len() - i,
    {
        let t = trim(labels[i].as_str());
        r.append(t.as_str());
        assert(lv.take(i + 1).drop_last() =~= lv.take(i as int));
        i += 1;
    }
    assert(lv.take(i as int) =~= lv);
    r
}

/// The current week that the current-week labels name, or why they name none.
pub open spec fn week_of_labels(labels: Seq<Seq<char>>) -> Result<u16, WeekLabelError> {
    let bytes = encode_utf8(week_label(labels));
    if label_has_two_bytes(bytes) {
        Ok(week_of_label(bytes))
    } else {
        Err(WeekLabelError::TooShort)
    }
}

/// The current week that the page `html` names, or why it names none.
pub open spec fn week_of_page_html(html: Seq<char>) -> Result<u16, WeekLabelError> {
    match css_texts(html, ".week-nav-current_week"@) {
        Some(labels) => week_of_labels(labels),
        None => Err(WeekLabelError::Selector),
    }
}

/// The current week as a page names it (see [`week_of_page_html`]).
pub fn current_week(html: &str) -> (r: Result<u16, WeekLabelError>)
    ensures
        r == week_of_page_html(html@),
{
    let found = select_texts(html, ".week-nav-current_week");
    match found {
        None => {
            Err(WeekLabelError::Selector)
        },
        Some(labels) => {
            let text = join_week_labels(&labels);
            let label = text.as_str();

            let res = if label.is_char_boundary(2) {
                Ok(week_number(label))
            } else {
                Err(WeekLabelError::TooShort)
            };
            res
        },
    }
}

} // verus!
