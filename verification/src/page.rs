//! What the logic reads from a timetable page, and how a week of days is read out of it.
//!
//! The page lists rows in order: a time row opens a time slot (and starts again at
//! Monday), and each lesson row after it holds the lessons of the next weekday in
//! that slot. Header rows and other rows are skipped.
use vstd::prelude::*;
use crate::text::{
    chars_of, concat, contains_chars, contains_seq, replace_chars, replace_seq, string_of, trim,
    trim_seq, to_uppercase, unicode_uppercase,
};
use crate::timetable::{Day, DayText, Lesson, LessonText, day_texts, lesson_texts};

verus! {

/// A lesson cell: the text of the first element of each field, where there is one.
#[derive(Clone, Debug)]
pub struct LessonNode {
    pub discipline: Option<String>,
    pub place: Option<String>,
    pub teacher: Option<String>,
    pub groups: Option<String>,
    pub lesson_type: Option<String>,
}

/// A row of the timetable grid: its `class` attribute, the texts of its time items,
/// and its lesson cells.
#[derive(Clone, Debug)]
pub struct ContainerNode {
    pub class_attr: Option<String>,
    pub times: Vec<String>,
    pub lessons: Vec<LessonNode>,
}

/// A timetable page: its grid rows, the labels of the weekday tabs, and the label
/// of the current week.
#[derive(Clone, Debug)]
pub struct WeekPage {
    pub containers: Vec<ContainerNode>,
    pub weekday_labels: Vec<String>,
    pub week_labels: Vec<String>,
}

/// An optional text.
pub open spec fn opt_view(o: Option<String>) -> Option<Seq<char>> {
    match o {
        Some(s) => Some(s@),
        None => None,
    }
}

/// The texts of a sequence of strings.
pub open spec fn strings_view(v: Seq<String>) -> Seq<Seq<char>> {
    v.map_values(|s: String| s@)
}

/// Appending one string appends its text.
pub(crate) proof fn lemma_strings_view_push(s: Seq<String>, x: String)
    ensures
        strings_view(s.push(x)) == strings_view(s).push(x@),
{
    assert(strings_view(s.push(x)) =~= strings_view(s).push(x@));
}

/// The texts of a lesson cell.
pub struct LessonNodeView {
    pub discipline: Option<Seq<char>>,
    pub place: Option<Seq<char>>,
    pub teacher: Option<Seq<char>>,
    pub groups: Option<Seq<char>>,
    pub lesson_type: Option<Seq<char>>,
}

impl View for LessonNode {
    type V = LessonNodeView;

    open spec fn view(&self) -> LessonNodeView {
        LessonNodeView {
            discipline: opt_view(self.discipline),
            place: opt_view(self.place),
            teacher: opt_view(self.teacher),
            groups: opt_view(self.groups),
            lesson_type: opt_view(self.lesson_type),
        }
    }
}

/// The texts of a sequence of lesson cells.
pub open spec fn nodes_view(s: Seq<LessonNode>) -> Seq<LessonNodeView> {
    s.map_values(|n: LessonNode| n@)
}

/// Appending one cell appends its texts.
pub(crate) proof fn lemma_nodes_view_push(s: Seq<LessonNode>, x: LessonNode)
    ensures
        nodes_view(s.push(x)) == nodes_view(s).push(x@),
{
    assert(nodes_view(s.push(x)) =~= nodes_view(s).push(x@));
}

/// The texts of a grid row.
pub struct ContainerView {
    pub class_attr: Option<Seq<char>>,
    pub times: Seq<Seq<char>>,
    pub lessons: Seq<LessonNodeView>,
}

impl View for ContainerNode {
    type V = ContainerView;

    open spec fn view(&self) -> ContainerView {
        ContainerView {
            class_attr: opt_view(self.class_attr),
            times: strings_view(self.times@),
            lessons: nodes_view(self.lessons@),
        }
    }
}

/// The texts of a sequence of grid rows.
pub open spec fn rows_view(s: Seq<ContainerNode>) -> Seq<ContainerView> {
    s.map_values(|c: ContainerNode| c@)
}

/// Appending one row appends its texts.
pub(crate) proof fn lemma_rows_view_push(s: Seq<ContainerNode>, x: ContainerNode)
    ensures
        rows_view(s.push(x)) == rows_view(s).push(x@),
{
    assert(rows_view(s.push(x)) =~= rows_view(s).push(x@));
}

/// The texts of a timetable page.
pub struct WeekPageView {
    pub containers: Seq<ContainerView>,
    pub weekday_labels: Seq<Seq<char>>,
    pub week_labels: Seq<Seq<char>>,
}

impl View for WeekPage {
    type V = WeekPageView;

    open spec fn view(&self) -> WeekPageView {
        WeekPageView {
            containers: rows_view(self.containers@),
            weekday_labels: strings_view(self.weekday_labels@),
            week_labels: strings_view(self.week_labels@),
        }
    }
}

/// The trimmed text of a field, or `default` where the cell has no such element.
pub open spec fn trimmed_or(o: Option<Seq<char>>, default: Seq<char>) -> Seq<char> {
    match o {
        Some(s) => trim_seq(s),
        None => default,
    }
}

/// The lesson that a cell describes, in the time slot `time`; a missing place reads
/// `---`, other missing fields read empty.
pub open spec fn lesson_of(time: Seq<char>, n: LessonNodeView) -> LessonText {
    LessonText {
        time: time,
        discipline: trimmed_or(n.discipline, Seq::<char>::empty()),
        place: trimmed_or(n.place, "---"@),
        teacher: trimmed_or(n.teacher, Seq::<char>::empty()),
        subgroup: trimmed_or(n.groups, Seq::<char>::empty()),
        lesson_type: trimmed_or(n.lesson_type, Seq::<char>::empty()),
    }
}

/// The lessons of a row's cells, in order, leaving out the cells whose discipline
/// is empty.
pub open spec fn kept_lessons(time: Seq<char>, ns: Seq<LessonNodeView>) -> Seq<LessonText>
    decreases ns.len(),
{
    if ns.len() == 0 {
        Seq::<LessonText>::empty()
    } else {
        let rest = kept_lessons(time, ns.drop_last());
        let l = lesson_of(time, ns.last());
        if l.discipline.len() > 0 {
            rest.push(l)
        } else {
            rest
        }
    }
}

/// The lessons kept from a row are exactly the lessons of its cells, in the cells'
/// order, that have a non-empty discipline: every such cell gives one lesson (two
/// subgroups in one cell give two), and no other cell gives any.
pub proof fn lemma_kept_lessons_are_named_cells(time: Seq<char>, ns: Seq<LessonNodeView>)
    ensures
        kept_lessons(time, ns) == ns.map_values(|n: LessonNodeView| lesson_of(time, n)).filter(
            |l: LessonText| l.discipline.len() > 0,
        ),
    decreases ns.len(),
{
    let all = ns.map_values(|n: LessonNodeView| lesson_of(time, n));
    if ns.len() == 0 {
        assert(all =~= Seq::<LessonText>::empty());
        reveal(Seq::filter);
    } else {
        lemma_kept_lessons_are_named_cells(time, ns.drop_last());
        assert(all =~= ns.drop_last().map_values(|n: LessonNodeView| lesson_of(time, n)).push(
            lesson_of(time, ns.last()),
        ));
        ns.drop_last().map_values(|n: LessonNodeView| lesson_of(time, n)).lemma_filter_push(
            lesson_of(time, ns.last()),
            |l: LessonText| l.discipline.len() > 0,
        );
    }
}

/// The lessons kept from cells `a` and then `b` are those kept from `a` followed by
/// those kept from `b`.
pub proof fn lemma_kept_lessons_append(time: Seq<char>, a: Seq<LessonNodeView>, b: Seq<LessonNodeView>)
    ensures
        kept_lessons(time, a + b) == kept_lessons(time, a) + kept_lessons(time, b),
    decreases b.len(),
{
    if b.len() == 0 {
        assert(a + b =~= a);
        assert(kept_lessons(time, a) + kept_lessons(time, b) =~= kept_lessons(time, a));
    } else {
        lemma_kept_lessons_append(time, a, b.drop_last());
        assert((a + b).drop_last() =~= a + b.drop_last());
        assert((a + b).last() == b.last());
        assert(kept_lessons(time, a + b) =~= kept_lessons(time, a) + kept_lessons(time, b));
    }
}

/// A single cell gives its lesson where its discipline is not empty, and nothing
/// otherwise.
pub proof fn lemma_kept_lessons_single(time: Seq<char>, n: LessonNodeView)
    ensures
        lesson_of(time, n).discipline.len() > 0 ==> kept_lessons(time, seq![n]) == seq![
            lesson_of(time, n),
        ],
        lesson_of(time, n).discipline.len() == 0 ==> kept_lessons(time, seq![n]).len() == 0,
{
    assert(seq![n].drop_last() =~= Seq::<LessonNodeView>::empty());
    assert(seq![n].last() == n);
    assert(kept_lessons(time, Seq::<LessonNodeView>::empty()) == Seq::<LessonText>::empty());
    assert(Seq::<LessonText>::empty().push(lesson_of(time, n)) =~= seq![lesson_of(time, n)]);
}

/// The number of days a week page has room for (Monday to Saturday).
pub open spec fn week_days() -> nat {
    6
}

/// Where the reading of the rows stands: the lessons found for each day, the
/// current time slot, and the weekday the next lesson row belongs to.
pub struct Reading {
    pub days: Seq<Seq<LessonText>>,
    pub time: Seq<char>,
    pub index: nat,
}

/// The `class` of a row, empty where it has none.
pub open spec fn class_of(c: ContainerView) -> Seq<char> {
    match c.class_attr {
        Some(s) => s,
        None => Seq::<char>::empty(),
    }
}

/// A row that opens a time slot.
pub open spec fn is_time_row(c: ContainerView) -> bool {
    contains_seq(class_of(c), "schedule__time"@)
}

/// A row that holds the lessons of one weekday.
pub open spec fn is_lesson_row(c: ContainerView) -> bool {
    contains_seq(class_of(c), "schedule__item"@) && !contains_seq(class_of(c), "schedule__head"@)
}

/// The text of a time slot: start and end, trimmed, joined by ` - `.
pub open spec fn slot_time(c: ContainerView) -> Seq<char> {
    trim_seq(c.times[0]) + " - "@ + trim_seq(c.times[1])
}

/// The reading after one more row.
pub open spec fn read_row(r: Reading, c: ContainerView) -> Reading {
    if is_time_row(c) {
        Reading {
            days: r.days,
            time: if c.times.len() >= 2 {
                slot_time(c)
            } else {
                r.time
            },
            index: 0,
        }
    } else if is_lesson_row(c) {
        Reading {
            days: if r.index < week_days() {
                r.days.update(r.index as int, r.days[r.index as int] + kept_lessons(r.time, c.lessons))
            } else {
                r.days
            },
            time: r.time,
            index: r.index + 1,
        }
    } else {
        r
    }
}

/// The reading before any row: no lessons, no time slot, Monday.
pub open spec fn start_reading() -> Reading {
    Reading {
        days: Seq::new(week_days(), |i: int| Seq::<LessonText>::empty()),
        time: Seq::<char>::empty(),
        index: 0,
    }
}

/// The reading after the rows `cs`, in order.
pub open spec fn read_rows(cs: Seq<ContainerView>) -> Reading
    decreases cs.len(),
{
    if cs.len() == 0 {
        start_reading()
    } else {
        read_row(read_rows(cs.drop_last()), cs.last())
    }
}

/// A weekday label as the page shows it, with its abbreviation written out: the
/// label is trimmed and upper-cased, and the first of ПН, ВТ, СР, ЧТ, ПТ, СБ, ВС
/// that occurs in it is replaced by the full name.
pub open spec fn weekday_title(raw: Seq<char>) -> Seq<char> {
    let day = unicode_uppercase(trim_seq(raw));
    if contains_seq(day, "ПН"@) {
        replace_seq(day, "ПН"@, "Понедельник"@)
    } else if contains_seq(day, "ВТ"@) {
        replace_seq(day, "ВТ"@, "Вторник"@)
    } else if contains_seq(day, "СР"@) {
        replace_seq(day, "СР"@, "Среда"@)
    } else if contains_seq(day, "ЧТ"@) {
        replace_seq(day, "ЧТ"@, "Четверг"@)
    } else if contains_seq(day, "ПТ"@) {
        replace_seq(day, "ПТ"@, "Пятница"@)
    } else if contains_seq(day, "СБ"@) {
        replace_seq(day, "СБ"@, "Суббота"@)
    } else if contains_seq(day, "ВС"@) {
        replace_seq(day, "ВС"@, "Воскресенье"@)
    } else {
        day
    }
}

/// The week a page shows: six days, day `i` headed by the `i`-th weekday label
/// (empty where there is none) and holding the lessons read from the rows.
pub open spec fn week_of_page(p: WeekPageView) -> Seq<DayText> {
    let r = read_rows(p.containers);
    Seq::new(
        week_days(),
        |i: int|
            DayText {
                title: if i < p.weekday_labels.len() {
                    weekday_title(p.weekday_labels[i])
                } else {
                    Seq::<char>::empty()
                },
                lessons: r.days[i],
            },
    )
}

/// Every lesson kept from a row has a discipline.
proof fn lemma_kept_lessons_named(time: Seq<char>, ns: Seq<LessonNodeView>)
    ensures
        forall|j: int|
            0 <= j < kept_lessons(time, ns).len() ==> (#[trigger] kept_lessons(time, ns)[j]).discipline.len()
                > 0,
    decreases ns.len(),
{
    if ns.len() > 0 {
        lemma_kept_lessons_named(time, ns.drop_last());
        let rest = kept_lessons(time, ns.drop_last());
        let l = lesson_of(time, ns.last());
        if l.discipline.len() > 0 {
            assert forall|j: int| 0 <= j < rest.push(l).len() implies (#[trigger] rest.push(l)[j]).discipline.len() > 0 by {
                if j < rest.len() {
                    assert(rest.push(l)[j] == rest[j]);
                }
            }
        }
    }
}

/// Reading rows keeps room for six days, each holding only lessons with a discipline.
proof fn lemma_read_rows_named(cs: Seq<ContainerView>)
    ensures
        read_rows(cs).days.len() == week_days(),
        forall|d: int, j: int|
            0 <= d < week_days() && 0 <= j < read_rows(cs).days[d].len() ==> (#[trigger] read_rows(
                cs,
            ).days[d][j]).discipline.len() > 0,
    decreases cs.len(),
{
    if cs.len() > 0 {
        lemma_read_rows_named(cs.drop_last());
        let r = read_rows(cs.drop_last());
        let c = cs.last();
        lemma_kept_lessons_named(r.time, c.lessons);
        if !is_time_row(c) && is_lesson_row(c) && r.index < week_days() {
            let added = kept_lessons(r.time, c.lessons);
            assert forall|d: int, j: int|
                0 <= d < week_days() && 0 <= j < read_rows(cs).days[d].len() implies (
                #[trigger] read_rows(cs).days[d][j]).discipline.len() > 0 by {
                if d == r.index {
                    let old_day = r.days[d];
                    if j >= old_day.len() {
                        assert((old_day + added)[j] == added[j - old_day.len()]);
                    }
                }
            }
        }
    }
}

/// A page always reads as six days (Monday to Saturday), and every lesson read has a
/// discipline: cells without one are left out.
pub proof fn lemma_week_of_page_shape(p: WeekPageView)
    ensures
        week_of_page(p).len() == 6,
        forall|d: int, j: int|
            0 <= d < 6 && 0 <= j < week_of_page(p)[d].lessons.len() ==> (#[trigger] week_of_page(
                p,
            )[d].lessons[j]).discipline.len() > 0,
{
    lemma_read_rows_named(p.containers);
}

/// A lesson row of one of the six weekdays appends to that day every lesson of its
/// cells that has a discipline, in order, leaves the other days as they were, and
/// hands the next lesson row to the next weekday.
pub proof fn lemma_lesson_row_adds_named_cells(r: Reading, c: ContainerView)
    requires
        !is_time_row(c),
        is_lesson_row(c),
        r.index < week_days(),
        r.days.len() == week_days(),
    ensures
        read_row(r, c).index == r.index + 1,
        read_row(r, c).time == r.time,
        read_row(r, c).days.len() == week_days(),
        read_row(r, c).days[r.index as int] == r.days[r.index as int] + c.lessons.map_values(
            |n: LessonNodeView| lesson_of(r.time, n),
        ).filter(|l: LessonText| l.discipline.len() > 0),
        forall|d: int|
            0 <= d < week_days() && d != r.index ==> #[trigger] read_row(r, c).days[d] == r.days[d],
{
    lemma_kept_lessons_are_named_cells(r.time, c.lessons);
}

/// A row that is neither a time row nor a lesson row leaves the reading as it was.
pub proof fn lemma_other_rows_skipped(r: Reading, c: ContainerView)
    requires
        !is_time_row(c),
        !is_lesson_row(c),
    ensures
        read_row(r, c) == r,
{
}

/// A time row starts the week again at Monday and leaves the lessons as they were.
pub proof fn lemma_time_row_restarts_week(r: Reading, c: ContainerView)
    requires
        is_time_row(c),
    ensures
        read_row(r, c).index == 0,
        read_row(r, c).days == r.days,
{
}

fn expand_abbreviation(day: &Vec<char>, abbr: &str, full: &str) -> (r: Option<String>)
    requires
        abbr@.len() > 0,
    ensures
        r matches Some(t) ==> contains_seq(day@, abbr@) && t@ == replace_seq(day@, abbr@, full@),
        r is None ==> !contains_seq(day@, abbr@),
{
    let a = chars_of(abbr);
    if contains_chars(day.as_slice(), a.as_slice()) {
        let f = chars_of(full);
        let replaced = replace_chars(day.as_slice(), a.as_slice(), f.as_slice());
        Some(string_of(replaced.as_slice()))
    } else {
        None
    }
}

/// A weekday label with its abbreviation written out (see [`weekday_title`]).
pub fn expand_weekday(raw: &str) -> (t: String)
    ensures
        t@ == weekday_title(raw@),
{
    let trimmed = trim(raw);
    let upper = to_uppercase(trimmed.as_str());
    let day = chars_of(upper.as_str());
    proof {
        reveal_strlit("ПН");
        reveal_strlit("ВТ");
        reveal_strlit("СР");
        reveal_strlit("ЧТ");
        reveal_strlit("ПТ");
        reveal_strlit("СБ");
        reveal_strlit("ВС");
    }
    if let Some(t) = expand_abbreviation(&day, "ПН", "Понедельник") {
        return t;
    }
    if let Some(t) = expand_abbreviation(&day, "ВТ", "Вторник") {
        return t;
    }
    if let Some(t) = expand_abbreviation(&day, "СР", "Среда") {
        return t;
    }
    if let Some(t) = expand_abbreviation(&day, "ЧТ", "Четверг") {
        return t;
    }
    if let Some(t) = expand_abbreviation(&day, "ПТ", "Пятница") {
        return t;
    }
    if let Some(t) = expand_abbreviation(&day, "СБ", "Суббота") {
        return t;
    }
    if let Some(t) = expand_abbreviation(&day, "ВС", "Воскресенье") {
        return t;
    }
    upper
}

/// The weekday labels of a page with their abbreviations written out.
pub fn weekday_titles(labels: &Vec<String>) -> (r: Vec<String>)
    ensures
        r@.len() == labels@.len(),
        forall|i: int| 0 <= i < r@.len() ==> #[trigger] r@[i]@ == weekday_title(labels@[i]@),
{
    let mut r: Vec<String> = Vec::new();
    let mut i: usize = 0;
    while i < labels.len()
        invariant
            i <= labels@.len(),
            r@.len() == i,
            forall|j: int| 0 <= j < i ==> #[trigger] r@[j]@ == weekday_title(labels@[j]@),
        decreases labels@.len() - i,
    {
        r.push(expand_weekday(labels[i].as_str()));
        i += 1;
    }
    r
}

fn trimmed_field(o: &Option<String>, default: &str) -> (r: String)
    ensures
        r@ == trimmed_or(opt_view(*o), default@),
{
    match o {
        Some(s) => trim(s.as_str()),
        None => default.to_owned(),
    }
}

/// The lesson that a cell describes (see [`lesson_of`]).
pub fn lesson_from_node(time: &String, n: &LessonNode) -> (l: Lesson)
    ensures
        l@ == lesson_of(time@, n@),
{
    proof {
        reveal_strlit("");
        assert(""@ =~= Seq::<char>::empty());
    }
    Lesson {
        time: time.clone(),
        discipline: trimmed_field(&n.discipline, ""),
        place: trimmed_field(&n.place, "---"),
        teacher: trimmed_field(&n.teacher, ""),
        subgroup: trimmed_field(&n.groups, ""),
        lesson_type: trimmed_field(&n.lesson_type, ""),
    }
}

/// Appends to `day` the lessons of the cells `ns` that have a discipline.
fn push_kept_lessons(day: &mut Vec<Lesson>, time: &String, ns: &Vec<LessonNode>)
    ensures
        lesson_texts(final(day)@) == lesson_texts(old(day)@) + kept_lessons(
            time@,
            nodes_view(ns@),
        ),
        lesson_texts(final(day)@) == lesson_texts(old(day)@) + nodes_view(ns@).map_values(
            |n: LessonNodeView| lesson_of(time@, n),
        ).filter(|l: LessonText| l.discipline.len() > 0),
{
    let ghost nv = nodes_view(ns@);
    let ghost start = lesson_texts(day@);
    let mut i: usize = 0;
    assert(nv.take(0) =~= Seq::<LessonNodeView>::empty());
    assert(lesson_texts(day@) =~= start + kept_lessons(time@, nv.take(0)));
    while i < ns.len()
        invariant
            i <= ns@.len(),
            nv == nodes_view(ns@),
            lesson_texts(day@) == start + kept_lessons(time@, nv.take(i as int)),
        decreases ns@.len() - i,
    {
        let l = lesson_from_node(time, &ns[i]);
        assert(nv.take(i + 1).drop_last() =~= nv.take(i as int));
        assert(nv.take(i + 1).last() == ns@[i as int]@);
        if !l.discipline.as_str().is_empty() {
            let ghost before = day@;
            day.push(l);
            assert(lesson_texts(day@) =~= lesson_texts(before).push(l@));
        }
        i += 1;
    }
    assert(nv.take(i as int) =~= nv);
    proof {
        lemma_kept_lessons_are_named_cells(time@, nv);
    }
}

/// The texts of the lessons kept for each day.
pub open spec fn storage_view(s: Seq<Vec<Lesson>>) -> Seq<Seq<LessonText>> {
    s.map_values(|v: Vec<Lesson>| lesson_texts(v@))
}

/// Reads the week out of a page's rows and weekday labels (see [`week_of_page`]).
pub fn read_week(page: &WeekPage) -> (days: Vec<Day>)
    ensures
        day_texts(days@) == week_of_page(page@),
{
    let ghost cv = rows_view(page.containers@);
    let mut storage: Vec<Vec<Lesson>> = Vec::new();
    let mut k: usize = 0;
    while k < 6
        invariant
            k <= 6,
            storage@.len() == k,
            forall|j: int| 0 <= j < k ==> (#[trigger] storage@[j])@.len() == 0,
        decreases 6 - k,
    {
        storage.push(Vec::new());
        k += 1;
    }
    assert forall|j: int| 0 <= j < 6 implies #[trigger] storage_view(storage@)[j] =~= start_reading().days[j] by {
        assert(storage@[j]@.len() == 0);
    }
    assert(storage_view(storage@) =~= start_reading().days);
    let mut time = String::new();
    let mut index: usize = 0;
    let mut i: usize = 0;
    assert(cv.take(0) =~= Seq::<ContainerView>::empty());
    while i < page.containers.len()
        invariant
            i <= page.containers@.len(),
            cv == rows_view(page.containers@),
            storage@.len() == 6,
            index <= i,
            storage_view(storage@) == read_rows(cv.take(i as int)).days,
            time@ == read_rows(cv.take(i as int)).time,
            index as nat == read_rows(cv.take(i as int)).index,
        decreases page.containers@.len() - i,
    {
        let c = &page.containers[i];
        assert(cv.take(i + 1).drop_last() =~= cv.take(i as int));
        assert(cv.take(i + 1).last() == c@);
        let class_text = match &c.class_attr {
            Some(s) => chars_of(s.as_str()),
            None => Vec::new(),
        };
        assert(class_text@ == class_of(c@));
        let time_mark = chars_of("schedule__time");
        let item_mark = chars_of("schedule__item");
        let head_mark = chars_of("schedule__head");
        if contains_chars(class_text.as_slice(), time_mark.as_slice()) {
            if c.times.len() >= 2 {
                let start = trim(c.times[0].as_str());
                let end = trim(c.times[1].as_str());
                let joined = concat(start.as_str(), " - ");
                time = concat(joined.as_str(), end.as_str());
                assert(time@ =~= slot_time(c@));
            }
            index = 0;
        } else if contains_chars(class_text.as_slice(), item_mark.as_slice()) && !contains_chars(
            class_text.as_slice(),
            head_mark.as_slice(),
        ) {
            if index < 6 {
                let ghost before = storage@;
                let mut day = storage.remove(index);
                push_kept_lessons(&mut day, &time, &c.lessons);
                storage.insert(index, day);
                assert(storage_view(storage@) =~= storage_view(before).update(
                    index as int,
                    storage_view(before)[index as int] + kept_lessons(time@, c@.lessons),
                ));
            }
            index += 1;
        }
        i += 1;
    }
    assert(cv.take(i as int) =~= cv);
    let titles = weekday_titles(&page.weekday_labels);
    let ghost full = storage@;
    let mut days: Vec<Day> = Vec::new();
    let mut d: usize = 0;
    let ghost week = week_of_page(page@);
    while d < 6
        invariant
            d <= 6,
            full.len() == 6,
            storage@ == full.subrange(d as int, 6),
            titles@.len() == page.weekday_labels@.len(),
            forall|j: int| 0 <= j < titles@.len() ==> #[trigger] titles@[j]@ == weekday_title(
                page.weekday_labels@[j]@,
            ),
            storage_view(full) == read_rows(cv).days,
            cv == rows_view(page.containers@),
            week == week_of_page(page@),
            days@.len() == d,
            forall|j: int| 0 <= j < d ==> (#[trigger] days@[j])@ == week[j],
        decreases 6 - d,
    {
        let title = if d < titles.len() {
            titles[d].clone()
        } else {
            String::new()
        };
        let lessons = storage.remove(0);
        proof {
            assert(storage@ =~= full.subrange(d + 1, 6));
            assert(lessons == full[d as int]);
            assert(storage_view(full)[d as int] == lesson_texts(full[d as int]@));
        }
        days.push(Day { title, lessons });
        proof {
            assert(days@[d as int]@.title =~= week[d as int].title);
            assert(days@[d as int]@.lessons =~= week[d as int].lessons);
        }
        d += 1;
    }
    assert(day_texts(days@) =~= week);
    days
}

} // verus!
