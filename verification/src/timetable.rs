//! Lessons and days of a timetable week, and their text for a Telegram message
//! (HTML parse mode).
use vstd::prelude::*;

verus! {

/// One lesson as the timetable lists it.
#[derive(Clone, Debug)]
pub struct Lesson {
    pub time: String,
    pub discipline: String,
    pub place: String,
    pub teacher: String,
    pub subgroup: String,
    pub lesson_type: String,
}

/// The text of a lesson's fields.
pub struct LessonText {
    pub time: Seq<char>,
    pub discipline: Seq<char>,
    pub place: Seq<char>,
    pub teacher: Seq<char>,
    pub subgroup: Seq<char>,
    pub lesson_type: Seq<char>,
}

impl View for Lesson {
    type V = LessonText;

    open spec fn view(&self) -> LessonText {
        LessonText {
            time: self.time@,
            discipline: self.discipline@,
            place: self.place@,
            teacher: self.teacher@,
            subgroup: self.subgroup@,
            lesson_type: self.lesson_type@,
        }
    }
}

/// One day of a timetable week: its heading and its lessons in order.
#[derive(Clone, Debug)]
pub struct Day {
    pub title: String,
    pub lessons: Vec<Lesson>,
}

/// The text of a day.
pub struct DayText {
    pub title: Seq<char>,
    pub lessons: Seq<LessonText>,
}

/// The texts of a sequence of lessons.
pub open spec fn lesson_texts(ls: Seq<Lesson>) -> Seq<LessonText> {
    ls.map_values(|l: Lesson| l@)
}

impl View for Day {
    type V = DayText;

    open spec fn view(&self) -> DayText {
        DayText { title: self.title@, lessons: lesson_texts(self.lessons@) }
    }
}

/// The texts of a sequence of days.
pub open spec fn day_texts(ds: Seq<Day>) -> Seq<DayText> {
    ds.map_values(|d: Day| d@)
}

impl Day {
    /// A day with no heading and no lessons.
    pub fn new() -> (d: Day)
        ensures
            d@.title.len() == 0,
            d@.lessons.len() == 0,
    {
        Day { title: String::new(), lessons: Vec::new() }
    }

    /// Whether the day has no lessons.
    pub fn is_empty(&self) -> (b: bool)
        ensures
            b == (self@.lessons.len() == 0),
    {
        self.lessons.len() == 0
    }
}

/// The line that closes every day in a message.
pub open spec fn day_rule() -> Seq<char> {
    "───────────────────────────\n"@
}

/// The lines that show one lesson: discipline and kind in bold, then place and
/// time, then teacher and subgroup when they are known, then a blank line.
pub open spec fn lesson_lines(l: LessonText) -> Seq<char> {
    "<b>"@ + l.discipline + "</b> ("@ + l.lesson_type + ")\n"@ + "      🏢 "@ + l.place + "\n"@
        + "      🕒 "@ + l.time + "\n"@ + (if l.teacher.len() > 0 {
        "      👤 "@ + l.teacher + "\n"@
    } else {
        Seq::<char>::empty()
    }) + (if l.subgroup.len() > 0 {
        "      👥 <i>"@ + l.subgroup + "</i>\n"@
    } else {
        Seq::<char>::empty()
    }) + "\n"@
}

/// The lines of several lessons, one after another.
pub open spec fn lessons_lines(ls: Seq<LessonText>) -> Seq<char>
    decreases ls.len(),
{
    if ls.len() == 0 {
        Seq::<char>::empty()
    } else {
        lessons_lines(ls.drop_last()) + lesson_lines(ls.last())
    }
}

/// The lines of a list of lessons are those of its first part followed by those of
/// the rest: no lesson is dropped, and the order is kept.
pub proof fn lemma_lessons_lines_append(a: Seq<LessonText>, b: Seq<LessonText>)
    ensures
        lessons_lines(a + b) == lessons_lines(a) + lessons_lines(b),
    decreases b.len(),
{
    if b.len() == 0 {
        assert(a + b =~= a);
        assert(lessons_lines(a) + lessons_lines(b) =~= lessons_lines(a));
    } else {
        lemma_lessons_lines_append(a, b.drop_last());
        assert((a + b).drop_last() =~= a + b.drop_last());
        assert((a + b).last() == b.last());
        assert(lessons_lines(a + b) =~= lessons_lines(a) + lessons_lines(b));
    }
}

/// A single lesson is shown by its own lines.
pub proof fn lemma_lessons_lines_single(l: LessonText)
    ensures
        lessons_lines(seq![l]) == lesson_lines(l),
{
    assert(seq![l].drop_last() =~= Seq::<LessonText>::empty());
    assert(seq![l].last() == l);
    assert(lessons_lines(Seq::<LessonText>::empty()) == Seq::<char>::empty());
    assert(Seq::<char>::empty() + lesson_lines(l) =~= lesson_lines(l));
}

/// The lines of a list of lessons are the lines of each lesson, one after another,
/// in order: lesson `i` contributes exactly `lesson_lines(ls[i])`.
pub proof fn lemma_lessons_lines_each(ls: Seq<LessonText>)
    ensures
        lessons_lines(ls) == ls.map_values(|l: LessonText| lesson_lines(l)).flatten(),
    decreases ls.len(),
{
    let lines = ls.map_values(|l: LessonText| lesson_lines(l));
    if ls.len() > 0 {
        lemma_lessons_lines_each(ls.drop_last());
        assert(lines.drop_last() =~= ls.drop_last().map_values(|l: LessonText| lesson_lines(l)));
        lines.lemma_flatten_and_flatten_alt_are_equivalent();
        lines.drop_last().lemma_flatten_and_flatten_alt_are_equivalent();
    } else {
        lines.lemma_flatten_and_flatten_alt_are_equivalent();
    }
}

/// The block that shows a day: its heading in bold italics, a note when it has no
/// lessons, its lessons, and the closing rule.
pub open spec fn day_block(d: DayText) -> Seq<char> {
    "<b><i>"@ + d.title + "</i></b>\n"@ + (if d.lessons.len() == 0 {
        "<b>Ничего нету</b>\n"@
    } else {
        Seq::<char>::empty()
    }) + lessons_lines(d.lessons) + day_rule()
}

/// The blocks of the days of a week that have lessons, in order; days without
/// lessons are left out.
pub open spec fn week_blocks(ds: Seq<DayText>) -> Seq<char>
    decreases ds.len(),
{
    if ds.len() == 0 {
        Seq::<char>::empty()
    } else {
        week_blocks(ds.drop_last()) + if ds.last().lessons.len() == 0 {
            Seq::<char>::empty()
        } else {
            day_block(ds.last())
        }
    }
}

/// The text of the days `a` and then `b` is the text of `a` followed by that of `b`:
/// no day with lessons is dropped, and the days keep their order.
pub proof fn lemma_week_blocks_append(a: Seq<DayText>, b: Seq<DayText>)
    ensures
        week_blocks(a + b) == week_blocks(a) + week_blocks(b),
    decreases b.len(),
{
    if b.len() == 0 {
        assert(a + b =~= a);
        assert(week_blocks(a) + week_blocks(b) =~= week_blocks(a));
    } else {
        lemma_week_blocks_append(a, b.drop_last());
        assert((a + b).drop_last() =~= a + b.drop_last());
        assert((a + b).last() == b.last());
        assert(week_blocks(a + b) =~= week_blocks(a) + week_blocks(b));
    }
}

/// A single day is shown by its block where it has lessons, and not at all otherwise.
pub proof fn lemma_week_blocks_single(d: DayText)
    ensures
        d.lessons.len() > 0 ==> week_blocks(seq![d]) == day_block(d),
        d.lessons.len() == 0 ==> week_blocks(seq![d]).len() == 0,
{
    assert(seq![d].drop_last() =~= Seq::<DayText>::empty());
    assert(seq![d].last() == d);
    assert(week_blocks(Seq::<DayText>::empty()) == Seq::<char>::empty());
    assert(Seq::<char>::empty() + day_block(d) =~= day_block(d));
}

/// Appends the lines of one lesson to `text`.
pub fn push_lesson_lines(text: &mut String, lesson: &Lesson)
    ensures
        final(text)@ == old(text)@ + lesson_lines(lesson@),
{
    text.append("<b>");
    text.append(lesson.discipline.as_str());
    text.append("</b> (");
    text.append(lesson.lesson_type.as_str());
    text.append(")\n");
    text.append("      🏢 ");
    text.append(lesson.place.as_str());
    text.append("\n");
    text.append("      🕒 ");
    text.append(lesson.time.as_str());
    text.append("\n");
    if !lesson.teacher.as_str().is_empty() {
        text.append("      👤 ");
        text.append(lesson.teacher.as_str());
        text.append("\n");
    }
    if !lesson.subgroup.as_str().is_empty() {
        text.append("      👥 <i>");
        text.append(lesson.subgroup.as_str());
        text.append("</i>\n");
    }
    text.append("\n");
    let ghost l = lesson@;
    assert(final(text)@ =~= old(text)@ + lesson_lines(l));
}

/// Appends the block of one day to `text`.
pub fn push_day_block(text: &mut String, day: &Day)
    ensures
        final(text)@ == old(text)@ + day_block(day@),
{
    let ghost start = text@;
    text.append("<b><i>");
    text.append(day.title.as_str());
    text.append("</i></b>\n");
    if day.is_empty() {
        text.append("<b>Ничего нету</b>\n");
    }
    let ghost head = text@;
    let mut i: usize = 0;
    while i < day.lessons.len()
        invariant
            i <= day.lessons@.len(),
            text@ == head + lessons_lines(lesson_texts(day.lessons@).take(i as int)),
        decreases day.lessons@.len() - i,
    {
        push_lesson_lines(text, &day.lessons[i]);
        assert(lesson_texts(day.lessons@).take(i + 1).drop_last() =~= lesson_texts(
            day.lessons@,
        ).take(i as int));
        i += 1;
    }
    assert(lesson_texts(day.lessons@).take(i as int) =~= lesson_texts(day.lessons@));
    text.append("───────────────────────────\n");
    assert(final(text)@ =~= old(text)@ + day_block(day@));
}

/// The blocks of a week's days that have lessons.
pub fn week_blocks_text(days: &Vec<Day>) -> (r: String)
    ensures
        r@ == week_blocks(day_texts(days@)),
{
    let mut text = String::new();
    let mut i: usize = 0;
    while i < days.len()
        invariant
            i <= days@.len(),
            text@ == week_blocks(day_texts(days@).take(i as int)),
        decreases days@.len() - i,
    {
        assert(day_texts(days@).take(i + 1).drop_last() =~= day_texts(days@).take(i as int));
        if !days[i].is_empty() {
            push_day_block(&mut text, &days[i]);
        }
        proof {
            let t = day_texts(days@).take(i + 1);
            assert(t.last() == days@[i as int]@);
            assert(text@ =~= week_blocks(t));
        }
        i += 1;
    }
    assert(day_texts(days@).take(i as int) =~= day_texts(days@));
    text
}

/// A day block is never empty.
pub proof fn lemma_day_block_not_empty(d: DayText)
    ensures
        day_block(d).len() > 0,
{
    assert(day_block(d).len() >= day_rule().len());
    reveal_strlit("───────────────────────────\n");
}

/// The week's text is empty exactly when no day has lessons.
pub proof fn lemma_week_blocks_empty(ds: Seq<DayText>)
    ensures
        (week_blocks(ds).len() == 0) <==> (forall|i: int| 0 <= i < ds.len() ==> #[trigger] ds[i].lessons.len() == 0),
    decreases ds.len(),
{
    if ds.len() > 0 {
        lemma_week_blocks_empty(ds.drop_last());
        lemma_day_block_not_empty(ds.last());
        if week_blocks(ds).len() == 0 {
            assert forall|i: int| 0 <= i < ds.len() implies #[trigger] ds[i].lessons.len() == 0 by {
                if i < ds.len() - 1 {
                    assert(ds.drop_last()[i] == ds[i]);
                }
            }
        } else {
            if forall|i: int| 0 <= i < ds.len() ==> #[trigger] ds[i].lessons.len() == 0 {
                assert forall|i: int| 0 <= i < ds.drop_last().len() implies #[trigger] ds.drop_last()[i].lessons.len() == 0 by {
                    assert(ds[i].lessons.len() == 0);
                }
                assert(ds[ds.len() - 1].lessons.len() == 0);
            }
        }
    }
}

} // verus!
