use schedule_bot::page::{expand_weekday, read_week, ContainerNode, LessonNode, WeekPage};
use schedule_bot::schedule::{
    compute_hash, current_week, parse_week_page, retry_delay, week_number, weekday_in_samara, Attempt, Fetch,
    Schedule, WeekLabelError,
};
use schedule_bot::timetable::{Day, Lesson};

const PAGE: &str = r#"<html><body>
<div class="weekday-nav"><a class="weekday-nav__item"> пн </a><a class="weekday-nav__item">вт</a></div>
<div class="week-nav-current_week"> 12 неделя </div>
<div class="schedule__items">
  <div class="schedule__item schedule__head">Понедельник</div>
  <div class="schedule__time"><div class="schedule__time-item"> 08:00 </div><div class="schedule__time-item">09:35</div></div>
  <div class="schedule__item"><div class="schedule__lesson"><div class="schedule__discipline"> Математика </div><div class="schedule__place">Корпус 3</div><div class="schedule__teacher">Иванов И. И.</div><div class="schedule__groups">6101</div><div class="schedule__lesson-type-chip">Лекция</div></div></div>
  <div class="schedule__item"></div>
  <div class="schedule__item"><div class="schedule__lesson"><div class="schedule__discipline">Физика</div></div><div class="schedule__lesson"><div class="schedule__discipline">   </div></div></div>
  <div class="schedule__time"><div class="schedule__time-item">09:45</div><div class="schedule__time-item">11:20</div></div>
  <div class="schedule__item"><div class="schedule__lesson"><div class="schedule__discipline">Химия</div><div class="schedule__place"></div></div></div>
</div></body></html>"#;

fn lesson(time: &str, discipline: &str, place: &str, teacher: &str, subgroup: &str, kind: &str) -> Lesson {
    Lesson {
        time: time.to_string(),
        discipline: discipline.to_string(),
        place: place.to_string(),
        teacher: teacher.to_string(),
        subgroup: subgroup.to_string(),
        lesson_type: kind.to_string(),
    }
}

fn same_lesson(a: &Lesson, b: &Lesson) -> bool {
    a.time == b.time
        && a.discipline == b.discipline
        && a.place == b.place
        && a.teacher == b.teacher
        && a.subgroup == b.subgroup
        && a.lesson_type == b.lesson_type
}

#[test]
fn page_reads_as_six_days_with_lessons_in_slots() {
    let days = parse_week_page(PAGE).expect("selectors parse");
    assert_eq!(days.len(), 6);
    assert_eq!(days[0].title, "Понедельник");
    assert_eq!(days[1].title, "Вторник");
    assert_eq!(days[2].title, "");
    assert_eq!(days[0].lessons.len(), 2);
    assert!(same_lesson(&days[0].lessons[0], &lesson("08:00 - 09:35", "Математика", "Корпус 3", "Иванов И. И.", "6101", "Лекция")));
    assert!(same_lesson(&days[0].lessons[1], &lesson("09:45 - 11:20", "Химия", "", "", "", "")));
    assert!(days[1].is_empty());
    assert_eq!(days[2].lessons.len(), 1);
    assert!(same_lesson(&days[2].lessons[0], &lesson("08:00 - 09:35", "Физика", "---", "", "", "")));
    for d in &days[3..] {
        assert!(d.is_empty());
    }
}

#[test]
fn lesson_rows_after_saturday_are_dropped() {
    let row = |d: &str| ContainerNode {
        class_attr: Some("schedule__item".to_string()),
        times: vec![],
        lessons: vec![LessonNode {
            discipline: Some(d.to_string()),
            place: None,
            teacher: None,
            groups: None,
            lesson_type: None,
        }],
    };
    let mut containers = vec![ContainerNode {
        class_attr: Some("schedule__time".to_string()),
        times: vec!["1".to_string()],
        lessons: vec![],
    }];
    for i in 0..8 {
        containers.push(row(&format!("L{}", i)));
    }
    containers.push(ContainerNode { class_attr: None, times: vec![], lessons: vec![] });
    let page = WeekPage { containers, weekday_labels: vec![], week_labels: vec![] };
    let days = read_week(&page);
    assert_eq!(days.len(), 6);
    for (i, d) in days.iter().enumerate() {
        assert_eq!(d.lessons.len(), 1);
        assert_eq!(d.lessons[0].discipline, format!("L{}", i));
        assert_eq!(d.lessons[0].time, "");
    }
}

#[test]
fn weekday_abbreviations_are_written_out() {
    assert_eq!(expand_weekday("  пн, 1 сентября "), "Понедельник, 1 СЕНТЯБРЯ");
    assert_eq!(expand_weekday("Ср"), "Среда");
    assert_eq!(expand_weekday("вс"), "Воскресенье");
    assert_eq!(expand_weekday("пт пт"), "Пятница Пятница");
    assert_eq!(expand_weekday("сегодня"), "СЕГОДНЯ");
}

#[test]
fn current_week_is_read_from_the_label() {
    assert_eq!(current_week(PAGE), Ok(12));
    assert_eq!(current_week("<div class=\"week-nav-current_week\">7 неделя</div>"), Ok(0));
    assert_eq!(current_week("<div class=\"week-nav-current_week\">+7</div>"), Ok(7));
    assert_eq!(current_week("<div class=\"week-nav-current_week\">5</div>"), Err(WeekLabelError::TooShort));
    assert_eq!(current_week("<p>nothing</p>"), Err(WeekLabelError::TooShort));
    assert_eq!(week_number("99 неделя"), 99);
    assert_eq!(week_number("ab"), 0);
    assert_eq!(week_number("Жx"), 0);
}

fn sample_week() -> Vec<Day> {
    let mut days: Vec<Day> = (0..6).map(|_| Day::new()).collect();
    days[0].title = "Понедельник".to_string();
    days[0].lessons.push(lesson("08:00 - 09:35", "Математика", "Корпус 3", "Иванов", "", "Лекция"));
    days[2].title = "Среда".to_string();
    days[2].lessons.push(lesson("09:45 - 11:20", "Физика", "---", "", "6101", "Практика"));
    days
}

const RULE: &str = "───────────────────────────\n";

#[test]
fn week_text_lists_days_with_lessons() {
    let s = Schedule::new("https://ssau.ru/rasp?groupId=1".to_string());
    let text = s.format_week(&Some(sample_week()));
    let expected = format!(
        "<b><i>Понедельник</i></b>\n<b>Математика</b> (Лекция)\n      🏢 Корпус 3\n      🕒 08:00 - 09:35\n      👤 Иванов\n\n{}<b><i>Среда</i></b>\n<b>Физика</b> (Практика)\n      🏢 ---\n      🕒 09:45 - 11:20\n      👥 <i>6101</i>\n\n{}",
        RULE, RULE
    );
    assert_eq!(text, expected);
}

#[test]
fn week_without_lessons_says_so() {
    let s = Schedule::new(String::new());
    let empty: Vec<Day> = (0..6).map(|_| Day::new()).collect();
    assert_eq!(s.format_week(&Some(empty)), "На эту неделю расписания нет.");
    assert_eq!(s.format_week(&Some(vec![])), "На эту неделю расписания нет.");
    assert_eq!(
        s.format_week(&None),
        "Ошибка при чтении расписания\nПередайте разрабу, что он бездарен"
    );
}

#[test]
fn day_text_shows_the_chosen_weekday() {
    let mut s = Schedule::new(String::new());
    s.date.weekday = 2;
    let expected = format!("<b><i></i></b>\n<b>Ничего нету</b>\n{}", RULE);
    assert_eq!(s.format_day(&Some(sample_week())), expected);
    s.date.weekday = 1;
    assert!(s.format_day(&Some(sample_week())).starts_with("<b><i>Понедельник</i></b>\n<b>Математика</b>"));
    s.date.weekday = 7;
    assert_eq!(s.format_day(&Some(sample_week())), "На этот день расписания нет.");
    assert_eq!(
        s.format_day(&None),
        "Ошибка при чтении расписания\nПередайте разрабу, что он бездарен"
    );
}

#[test]
fn page_url_adds_chosen_week_and_weekday() {
    let mut s = Schedule::new("https://ssau.ru/rasp?groupId=5".to_string());
    assert_eq!(s.page_url(), "https://ssau.ru/rasp?groupId=5");
    s.date.week = 12;
    assert_eq!(s.page_url(), "https://ssau.ru/rasp?groupId=5&selectedWeek=12");
    s.date.weekday = 3;
    assert_eq!(s.page_url(), "https://ssau.ru/rasp?groupId=5&selectedWeek=12&selectedWeekday=3");
    s.date.week = 0;
    assert_eq!(s.page_url(), "https://ssau.ru/rasp?groupId=5&selectedWeekday=3");
}

#[test]
fn fill_in_today_keeps_a_chosen_weekday() {
    let mut s = Schedule::new(String::new());
    s.date.weekday = 4;
    s.fill_in_today(1704056400);
    assert_eq!(s.date.weekday, 4);
    s.date.weekday = 0;
    // 2023-12-31 21:00 UTC, a Sunday, is already Monday 01:00 in Samara.
    s.fill_in_today(1704056400);
    assert_eq!(s.date.weekday, 1);
    assert_eq!(s.date.week, 0);
}

#[test]
fn weekdays_are_taken_in_samara_time() {
    assert_eq!(weekday_in_samara(0), 4);
    assert_eq!(weekday_in_samara(-1), 4);
    assert_eq!(weekday_in_samara(-14401), 3);
    assert_eq!(weekday_in_samara(1704067200), 1);
    assert_eq!(weekday_in_samara(1704052799), 7);
    assert!((1..=7).contains(&weekday_in_samara(i64::MIN)));
    assert!((1..=7).contains(&weekday_in_samara(i64::MAX)));
    let zone = chrono::FixedOffset::east_opt(4 * 3600).unwrap();
    let mut t: i64 = -400_000_000;
    while t < 4_000_000_000 {
        let local = chrono::DateTime::from_timestamp(t, 0).unwrap().with_timezone(&zone);
        let expected = chrono::Datelike::weekday(&local).number_from_monday() as u8;
        assert_eq!(weekday_in_samara(t), expected, "at {}", t);
        t += 3_601 * 7;
    }
}

#[test]
fn fetching_and_retrying_decisions() {
    let mut s = Schedule::new(String::new());
    assert_eq!(s.next_fetch(), Fetch::CurrentWeek);
    s.date.week = 3;
    assert_eq!(s.next_fetch(), Fetch::WeekPage);
    assert_eq!(retry_delay(Attempt::Stored), None);
    assert_eq!(retry_delay(Attempt::ReadFailed), Some(1));
    assert_eq!(retry_delay(Attempt::StoreFailed), Some(1));
}

#[test]
fn hash_of_json_bytes() {
    assert_eq!(compute_hash(b""), 3244421341483603138);
    let a = compute_hash(br#"[{"title":"x","lessons":[]}]"#);
    let b = compute_hash(br#"[{"title":"y","lessons":[]}]"#);
    assert_ne!(a, b);
    let s = Schedule::new(String::new());
    assert!(!s.is_changed(a, br#"[{"title":"x","lessons":[]}]"#));
    assert!(s.is_changed(a, br#"[{"title":"y","lessons":[]}]"#));
}
