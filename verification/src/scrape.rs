//! Reading pages of the university site with CSS selectors (the `scraper` crate),
//! and the page models built from what the selectors find.
use vstd::prelude::*;
use crate::page::{
    ContainerNode, ContainerView, LessonNode, LessonNodeView, WeekPage, WeekPageView,
    lemma_nodes_view_push, lemma_rows_view_push, lemma_strings_view_push, nodes_view, opt_view,
    rows_view, strings_view,
};

verus! {

/// For the HTML document `html`: `None` where `selector` is not a valid CSS selector,
/// else the text content of each element that matches it, in document order.
pub uninterp spec fn css_texts(html: Seq<char>, selector: Seq<char>) -> Option<Seq<Seq<char>>>;

/// For the HTML document `html`: `None` where `selector` is not a valid CSS selector,
/// else the value of attribute `attr` of each element that matches it, in document order.
pub uninterp spec fn css_attrs(html: Seq<char>, selector: Seq<char>, attr: Seq<char>) -> Option<
    Seq<Option<Seq<char>>>,
>;

/// For the HTML document `html`: `None` where a selector is not valid, else for each
/// element matching `outer`, the text content of each of its descendants matching
/// `inner`.
pub uninterp spec fn css_inner_texts(html: Seq<char>, outer: Seq<char>, inner: Seq<char>) -> Option<
    Seq<Seq<Seq<char>>>,
>;

/// For the HTML document `html`: `None` where a selector is not valid, else for each
/// element matching `outer`, for each of its descendants matching `cell`, the text
/// content of the first descendant of that cell matching `field`, where there is one.
pub uninterp spec fn css_cell_texts(
    html: Seq<char>,
    outer: Seq<char>,
    cell: Seq<char>,
    field: Seq<char>,
) -> Option<Seq<Seq<Option<Seq<char>>>>>;

/// The texts of an optional list of strings.
pub open spec fn texts_view(r: Option<Vec<String>>) -> Option<Seq<Seq<char>>> {
    match r {
        Some(v) => Some(strings_view(v@)),
        None => None,
    }
}

/// The texts of an optional list of optional strings.
pub open spec fn opt_texts_view(r: Option<Vec<Option<String>>>) -> Option<Seq<Option<Seq<char>>>> {
    match r {
        Some(v) => Some(v@.map_values(|o: Option<String>| opt_view(o))),
        None => None,
    }
}

/// The texts of an optional list of lists of strings.
pub open spec fn nested_texts_view(r: Option<Vec<Vec<String>>>) -> Option<Seq<Seq<Seq<char>>>> {
    match r {
        Some(v) => Some(v@.map_values(|w: Vec<String>| strings_view(w@))),
        None => None,
    }
}

/// The texts of an optional list of lists of optional strings.
pub open spec fn nested_opt_texts_view(r: Option<Vec<Vec<Option<String>>>>) -> Option<
    Seq<Seq<Option<Seq<char>>>>,
> {
    match r {
        Some(v) => Some(
            v@.map_values(|w: Vec<Option<String>>| w@.map_values(|o: Option<String>| opt_view(o))),
        ),
        None => None,
    }
}

/// Parses `html` as a document (`Html::parse_document`), parses `selector`
/// (`Selector::parse`), and collects the text of each matching element
/// (`ElementRef::text`); `None` where the selector does not parse.
/// The result is named [`css_texts`].
#[verifier::external_body]
pub(crate) fn select_texts(html: &str, selector: &str) -> (r: Option<Vec<String>>)
    ensures
        texts_view(r) == css_texts(html@, selector@),
{
    let selector = scraper::Selector::parse(selector).ok()?;
    let document = scraper::Html::parse_document(html);
    Some(document.select(&selector).map(|e| e.text().collect::<String>()).collect())
}

/// Parses `html` and `selector` as [`select_texts`] does and collects the value of
/// attribute `attr` of each matching element (`ElementRef::attr`).
/// The result is named [`css_attrs`].
#[verifier::external_body]
pub(crate) fn select_attrs(html: &str, selector: &str, attr: &str) -> (r: Option<Vec<Option<String>>>)
    ensures
        opt_texts_view(r) == css_attrs(html@, selector@, attr@),
{
    let selector = scraper::Selector::parse(selector).ok()?;
    let document = scraper::Html::parse_document(html);
    Some(document.select(&selector).map(|e| e.attr(attr).map(|a| a.to_string())).collect())
}

/// Parses `html` and the selectors, and for each element matching `outer` collects
/// the texts of its descendants matching `inner` (`ElementRef::select`).
/// The result is named [`css_inner_texts`].
#[verifier::external_body]
pub(crate) fn select_inner_texts(html: &str, outer: &str, inner: &str) -> (r: Option<Vec<Vec<String>>>)
    ensures
        nested_texts_view(r) == css_inner_texts(html@, outer@, inner@),
{
    let outer = scraper::Selector::parse(outer).ok()?;
    let inner = scraper::Selector::parse(inner).ok()?;
    let document = scraper::Html::parse_document(html);
    Some(
        document.select(&outer).map(
            |o| o.select(&inner).map(|e| e.text().collect::<String>()).collect(),
        ).collect(),
    )
}

/// Parses `html` and the selectors, and for each element matching `outer`, for each
/// of its descendants matching `cell`, takes the text of the first descendant of the
/// cell that matches `field`. The result is named [`css_cell_texts`].
#[verifier::external_body]
pub(crate) fn select_cell_texts(html: &str, outer: &str, cell: &str, field: &str) -> (r: Option<
    Vec<Vec<Option<String>>>,
>)
    ensures
        nested_opt_texts_view(r) == css_cell_texts(html@, outer@, cell@, field@),
{
    let (outer, cell) = (scraper::Selector::parse(outer).ok()?, scraper::Selector::parse(cell).ok()?);
    let field = scraper::Selector::parse(field).ok()?;
    let document = scraper::Html::parse_document(html);
    Some(
        document.select(&outer).map(
            |o| o.select(&cell).map(|c| c.select(&field).next().map(|e| e.text().collect::<String>())).collect(),
        ).collect(),
    )
}

/// `s[i]`, or empty where `i` is out of range.
pub open spec fn row_or_empty<T>(s: Seq<Seq<T>>, i: int) -> Seq<T> {
    if 0 <= i < s.len() {
        s[i]
    } else {
        Seq::<T>::empty()
    }
}

/// `s[i][j]`, or `None` where it is out of range.
pub open spec fn cell_or_none(s: Seq<Seq<Option<Seq<char>>>>, i: int, j: int) -> Option<Seq<char>> {
    if 0 <= i < s.len() && 0 <= j < s[i].len() {
        s[i][j]
    } else {
        None
    }
}

/// The answers of the selector queries that make up a timetable page.
pub struct PageQueries {
    pub classes: Seq<Option<Seq<char>>>,
    pub times: Seq<Seq<Seq<char>>>,
    pub disciplines: Seq<Seq<Option<Seq<char>>>>,
    pub places: Seq<Seq<Option<Seq<char>>>>,
    pub teachers: Seq<Seq<Option<Seq<char>>>>,
    pub groups: Seq<Seq<Option<Seq<char>>>>,
    pub kinds: Seq<Seq<Option<Seq<char>>>>,
    pub weekdays: Seq<Seq<char>>,
    pub weeks: Seq<Seq<char>>,
}

/// Grid row `i` as the queries describe it: one lesson cell per discipline answer.
pub open spec fn row_of(q: PageQueries, i: int) -> ContainerView {
    ContainerView {
        class_attr: q.classes[i],
        times: row_or_empty(q.times, i),
        lessons: Seq::new(
            row_or_empty(q.disciplines, i).len(),
            |j: int|
                LessonNodeView {
                    discipline: cell_or_none(q.disciplines, i, j),
                    place: cell_or_none(q.places, i, j),
                    teacher: cell_or_none(q.teachers, i, j),
                    groups: cell_or_none(q.groups, i, j),
                    lesson_type: cell_or_none(q.kinds, i, j),
                },
        ),
    }
}

/// The page that the queries describe: one grid row per `class` answer.
pub open spec fn page_of(q: PageQueries) -> WeekPageView {
    WeekPageView {
        containers: Seq::new(q.classes.len(), |i: int| row_of(q, i)),
        weekday_labels: q.weekdays,
        week_labels: q.weeks,
    }
}

/// The selector of the grid rows of a timetable page.
pub open spec fn rows_selector() -> Seq<char> {
    ".schedule__items > div"@
}

/// The selector of the lesson cells in a grid row.
pub open spec fn cell_selector() -> Seq<char> {
    ".schedule__lesson"@
}

/// The answers of the selector queries for the timetable page `html`, or `None`
/// where a query has none.
pub open spec fn page_queries(html: Seq<char>) -> Option<PageQueries> {
    let rows = rows_selector();
    let cell = cell_selector();
    let classes = css_attrs(html, rows, "class"@);
    let times = css_inner_texts(html, rows, ".schedule__time-item"@);
    let disciplines = css_cell_texts(html, rows, cell, ".schedule__discipline"@);
    let places = css_cell_texts(html, rows, cell, ".schedule__place"@);
    let teachers = css_cell_texts(html, rows, cell, ".schedule__teacher"@);
    let groups = css_cell_texts(html, rows, cell, ".schedule__groups"@);
    let kinds = css_cell_texts(html, rows, cell, ".schedule__lesson-type-chip"@);
    let weekdays = css_texts(html, ".weekday-nav__item"@);
    let weeks = css_texts(html, ".week-nav-current_week"@);
    if classes is Some && times is Some && disciplines is Some && places is Some && teachers is Some
        && groups is Some && kinds is Some && weekdays is Some && weeks is Some {
        Some(
            PageQueries {
                classes: classes->0,
                times: times->0,
                disciplines: disciplines->0,
                places: places->0,
                teachers: teachers->0,
                groups: groups->0,
                kinds: kinds->0,
                weekdays: weekdays->0,
                weeks: weeks->0,
            },
        )
    } else {
        None
    }
}

/// The timetable page that `html` describes, or `None` where a query fails.
pub open spec fn scraped_page(html: Seq<char>) -> Option<WeekPageView> {
    match page_queries(html) {
        Some(q) => Some(page_of(q)),
        None => None,
    }
}

fn copy_text(o: &Option<String>) -> (r: Option<String>)
    ensures
        opt_view(r) == opt_view(*o),
{
    match o {
        Some(s) => Some(s.clone()),
        None => None,
    }
}

fn copy_texts(v: &Vec<String>) -> (r: Vec<String>)
    ensures
        strings_view(r@) == strings_view(v@),
{
    let mut r: Vec<String> = Vec::new();
    let mut i: usize = 0;
    while i < v.len()
        invariant
            i <= v@.len(),
            strings_view(r@) == strings_view(v@).take(i as int),
        decreases v@.len() - i,
    {
        let ghost old_r = r@;
        let t = v[i].clone();
        r.push(t);
        assert(r@ == old_r.push(v@[i as int]));
        proof {
            lemma_strings_view_push(old_r, v@[i as int]);
            assert(strings_view(v@).take(i + 1) =~= strings_view(v@).take(i as int).push(v@[i as int]@));
        }
        i += 1;
        assert(strings_view(r@) =~= strings_view(v@).take(i as int));
    }
    assert(strings_view(v@).take(i as int) =~= strings_view(v@));
    r
}

/// The texts of a list of lists of optional strings.
pub open spec fn cells_view(v: Seq<Vec<Option<String>>>) -> Seq<Seq<Option<Seq<char>>>> {
    v.map_values(|w: Vec<Option<String>>| w@.map_values(|o: Option<String>| opt_view(o)))
}

fn cell_at(v: &Vec<Vec<Option<String>>>, i: usize, j: usize) -> (r: Option<String>)
    ensures
        opt_view(r) == cell_or_none(cells_view(v@), i as int, j as int),
{
    if i < v.len() && j < v[i].len() {
        copy_text(&v[i][j])
    } else {
        None
    }
}

fn row_at(
    classes: &Vec<Option<String>>,
    times: &Vec<Vec<String>>,
    disciplines: &Vec<Vec<Option<String>>>,
    places: &Vec<Vec<Option<String>>>,
    teachers: &Vec<Vec<Option<String>>>,
    groups: &Vec<Vec<Option<String>>>,
    kinds: &Vec<Vec<Option<String>>>,
    i: usize,
    Ghost(q): Ghost<PageQueries>,
) -> (c: ContainerNode)
    requires
        i < classes@.len(),
        q.classes == classes@.map_values(|o: Option<String>| opt_view(o)),
        q.times == times@.map_values(|w: Vec<String>| strings_view(w@)),
        q.disciplines == cells_view(disciplines@),
        q.places == cells_view(places@),
        q.teachers == cells_view(teachers@),
        q.groups == cells_view(groups@),
        q.kinds == cells_view(kinds@),
    ensures
        c@ == row_of(q, i as int),
{
    let times_i = if i < times.len() {
        copy_texts(&times[i])
    } else {
        Vec::new()
    };
    let n = if i < disciplines.len() {
        disciplines[i].len()
    } else {
        0
    };
    let mut lessons: Vec<LessonNode> = Vec::new();
    let mut j: usize = 0;
    let ghost target = row_of(q, i as int).lessons;
    while j < n
        invariant
            j <= n,
            n == row_or_empty(q.disciplines, i as int).len(),
            target == row_of(q, i as int).lessons,
            target.len() == n,
            q.disciplines == cells_view(disciplines@),
            q.places == cells_view(places@),
            q.teachers == cells_view(teachers@),
            q.groups == cells_view(groups@),
            q.kinds == cells_view(kinds@),
            nodes_view(lessons@) == target.take(j as int),
        decreases n - j,
    {
        let node = LessonNode {
            discipline: cell_at(disciplines, i, j),
            place: cell_at(places, i, j),
            teacher: cell_at(teachers, i, j),
            groups: cell_at(groups, i, j),
            lesson_type: cell_at(kinds, i, j),
        };
        assert(node@ == target[j as int]);
        let ghost old_l = lessons@;
        lessons.push(node);
        assert(lessons@ == old_l.push(node));
        proof {
            lemma_nodes_view_push(old_l, node);
            assert(target.take(j + 1) =~= target.take(j as int).push(node@));
        }
        j += 1;
        assert(nodes_view(lessons@) =~= target.take(j as int));
    }
    assert(target.take(j as int) =~= target);
    let c = ContainerNode { class_attr: copy_text(&classes[i]), times: times_i, lessons };
    assert(c@.times =~= row_of(q, i as int).times);
    c
}

/// Runs the selector queries of a timetable page and builds the page model from
/// their answers (see [`scraped_page`]); `None` where a query has no answer.
pub fn scrape_week_page(html: &str) -> (r: Option<WeekPage>)
    ensures
        match r {
            Some(p) => scraped_page(html@) == Some(p@),
            None => scraped_page(html@) is None,
        },
{
    let rows = ".schedule__items > div";
    let cell = ".schedule__lesson";
    let classes = select_attrs(html, rows, "class");
    let times = select_inner_texts(html, rows, ".schedule__time-item");
    let disciplines = select_cell_texts(html, rows, cell, ".schedule__discipline");
    let places = select_cell_texts(html, rows, cell, ".schedule__place");
    let teachers = select_cell_texts(html, rows, cell, ".schedule__teacher");
    let groups = select_cell_texts(html, rows, cell, ".schedule__groups");
    let kinds = select_cell_texts(html, rows, cell, ".schedule__lesson-type-chip");
    let weekdays = select_texts(html, ".weekday-nav__item");
    let weeks = select_texts(html, ".week-nav-current_week");
    match (classes, times, disciplines, places, teachers, groups, kinds, weekdays, weeks) {
        (
            Some(classes),
            Some(times),
            Some(disciplines),
            Some(places),
            Some(teachers),
            Some(groups),
            Some(kinds),
            Some(weekdays),
            Some(weeks),
        ) => {
            let ghost q = page_queries(html@)->0;
            let mut containers: Vec<ContainerNode> = Vec::new();
            let mut i: usize = 0;
            while i < classes.len()
                invariant
                    i <= classes@.len(),
                    q.classes == classes@.map_values(|o: Option<String>| opt_view(o)),
                    q.times == times@.map_values(|w: Vec<String>| strings_view(w@)),
                    q.disciplines == cells_view(disciplines@),
                    q.places == cells_view(places@),
                    q.teachers == cells_view(teachers@),
                    q.groups == cells_view(groups@),
                    q.kinds == cells_view(kinds@),
                    rows_view(containers@) =~= Seq::new(
                        i as nat,
                        |k: int| row_of(q, k),
                    ),
                decreases classes@.len() - i,
            {
                let c = row_at(
                    &classes,
                    &times,
                    &disciplines,
                    &places,
                    &teachers,
                    &groups,
                    &kinds,
                    i,
                    Ghost(q),
                );
                let ghost old_c = containers@;
                containers.push(c);
                assert(containers@ == old_c.push(c));
                proof {
                    lemma_rows_view_push(old_c, c);
                }
                i += 1;
                assert(rows_view(containers@) =~= Seq::new(
                    i as nat,
                    |k: int| row_of(q, k),
                ));
            }
            let page = WeekPage { containers, weekday_labels: weekdays, week_labels: weeks };
            assert(page@ =~= page_of(q));
            Some(page)
        },
        _ => None,
    }
}

} // verus!
