use schedule_bot::bot::{
    button_action, classify_message, course_chosen, course_prompt, day_button_ok, greeting,
    group_chosen, institute_chosen, institute_id, press_day_button, press_week_button,
    route_callback, route_message, schedule_reply, state_for, updated_text, ButtonAction, Command,
    Lookup, MessageAction, Required, Route, State, User,
};
use schedule_bot::catalog::{faculty_links, group_links, links_in};
use schedule_bot::date::Date;
use schedule_bot::keyboard::{courses_keyboard, instituts_keyboard, rows_of, signed_decimal_string, Button};
use schedule_bot::schedule::Schedule;
use schedule_bot::timetable::Day;

#[test]
fn new_date_has_nothing_chosen() {
    let d = Date::new();
    assert_eq!((d.week, d.weekday), (0, 0));
    assert_eq!(Date::default(), d);
}

#[test]
fn week_buttons_move_the_week() {
    let mut d = Date { week: 5, weekday: 3 };
    assert_eq!(press_week_button(&mut d, ButtonAction::NextWeek), Required::Week);
    assert_eq!(d, Date { week: 6, weekday: 3 });
    assert_eq!(press_week_button(&mut d, ButtonAction::PreviousWeek), Required::Week);
    assert_eq!(d, Date { week: 5, weekday: 3 });
    let mut first = Date { week: 1, weekday: 2 };
    press_week_button(&mut first, ButtonAction::PreviousWeek);
    assert_eq!(first.week, 1);
    let mut last = Date { week: 65535, weekday: 2 };
    press_week_button(&mut last, ButtonAction::NextWeek);
    assert_eq!(last.week, 65535);
    assert_eq!(press_week_button(&mut d, ButtonAction::ShowDay), Required::Day);
    assert_eq!(d, Date { week: 5, weekday: 3 });
    assert_eq!(press_week_button(&mut d, ButtonAction::Today), Required::Week);
    assert_eq!(d, Date { week: 5, weekday: 3 });
    press_week_button(&mut d, ButtonAction::ThisWeek);
    assert_eq!(d, Date::new());
}

#[test]
fn day_buttons_wrap_around_the_week() {
    let mut d = Date { week: 5, weekday: 7 };
    assert_eq!(press_day_button(&mut d, ButtonAction::NextDay), Required::Day);
    assert_eq!(d, Date { week: 6, weekday: 1 });
    press_day_button(&mut d, ButtonAction::PreviousDay);
    assert_eq!(d, Date { week: 5, weekday: 7 });
    press_day_button(&mut d, ButtonAction::PreviousDay);
    assert_eq!(d, Date { week: 5, weekday: 6 });
    assert_eq!(press_day_button(&mut d, ButtonAction::ShowWeek), Required::Week);
    press_day_button(&mut d, ButtonAction::Today);
    assert_eq!(d, Date::new());
    assert!(!day_button_ok(&Date { week: 0, weekday: 1 }, ButtonAction::PreviousDay));
    assert!(!day_button_ok(&Date { week: 3, weekday: 0 }, ButtonAction::PreviousDay));
    assert!(!day_button_ok(&Date { week: 65535, weekday: 7 }, ButtonAction::NextDay));
    assert!(day_button_ok(&Date { week: 65535, weekday: 6 }, ButtonAction::NextDay));
    assert!(day_button_ok(&Date { week: 0, weekday: 1 }, ButtonAction::Today));
}

#[test]
fn every_day_of_a_week_round_trips() {
    for weekday in 1..=7u8 {
        let start = Date { week: 10, weekday };
        let mut d = start;
        press_day_button(&mut d, ButtonAction::NextDay);
        press_day_button(&mut d, ButtonAction::PreviousDay);
        assert_eq!(d, start);
    }
}

#[test]
fn button_data_is_recognised() {
    let cases = [
        ("previous week", ButtonAction::PreviousWeek),
        ("update week", ButtonAction::UpdateWeek),
        ("next week", ButtonAction::NextWeek),
        ("this week", ButtonAction::ThisWeek),
        ("day", ButtonAction::ShowDay),
        ("previous day", ButtonAction::PreviousDay),
        ("update day", ButtonAction::UpdateDay),
        ("next day", ButtonAction::NextDay),
        ("today", ButtonAction::Today),
        ("week", ButtonAction::ShowWeek),
        ("Week", ButtonAction::Other),
        ("", ButtonAction::Other),
    ];
    for (data, action) in cases {
        assert_eq!(button_action(&data.to_string()), action);
    }
}

#[test]
fn phrases_and_commands_are_classified() {
    assert_eq!(classify_message(Some("  НАЧАТЬ ")), MessageAction::Setup);
    assert_eq!(classify_message(Some("Узнать Расписание")), MessageAction::ShowSchedule);
    assert_eq!(classify_message(Some("/unknown")), MessageAction::UnknownCommand);
    assert_eq!(classify_message(Some(" /unknown")), MessageAction::Greet);
    assert_eq!(classify_message(Some("привет")), MessageAction::Greet);
    assert_eq!(classify_message(None), MessageAction::Greet);
}

#[test]
fn greeting_names_the_user_and_lists_commands() {
    let text = greeting("Анна", "/help — помощь");
    assert_eq!(
        text,
        "Приветствую, Анна!\nЯ бот для просмотра расписания СамГУ\n\nПомимо комманд, доступны фразы(не зависят от регистра):\n\nначать\nузнать расписание\n\n/help — помощь\n\nДля тех, кто хочет помочь с разработкой бота:\nhttps://github.com/NeuroBreaker/schedule_bot"
    );
}

#[test]
fn commands_win_over_the_dialogue_state() {
    let states = vec![
        State::Start,
        State::AwaitingInstitute,
        State::AwaitingCourse(User::new()),
        State::WeekSchedule(Schedule::new(String::new())),
    ];
    for s in &states {
        assert_eq!(route_message(s, Some(Command::Help)), Some(Route::Greet));
        assert_eq!(route_message(s, Some(Command::Start)), Some(Route::Greet));
        assert_eq!(route_message(s, Some(Command::Cancel)), Some(Route::Cancel));
        assert_eq!(route_message(s, Some(Command::Setup)), Some(Route::Setup));
        assert_eq!(route_message(s, Some(Command::Schedule)), Some(Route::Schedule));
    }
    assert_eq!(route_message(&State::Start, None), Some(Route::Message));
    assert_eq!(route_message(&State::AwaitingInstitute, None), None);
    assert_eq!(route_callback(&State::Start), None);
    assert_eq!(route_callback(&State::AwaitingInstitute), Some(Route::Institute));
    assert_eq!(route_callback(&State::AwaitingGroup(User::new())), Some(Route::Group));
    assert_eq!(route_callback(&State::DaySchedule(Schedule::new(String::new()))), Some(Route::DayButton));
    assert!(matches!(State::default(), State::Start));
}

#[test]
fn setup_collects_institute_course_and_group() {
    let s = institute_chosen("Институт информатики".to_string());
    let user = match s {
        State::AwaitingCourse(u) => u,
        _ => panic!("a course is awaited"),
    };
    assert_eq!(user.institute, "Институт информатики");
    assert_eq!(user.course, "");
    let s = course_chosen(user, "2".to_string());
    let user = match s {
        State::AwaitingGroup(u) => u,
        _ => panic!("a group is awaited"),
    };
    let user = group_chosen(user, "6201".to_string());
    assert_eq!((user.institute.as_str(), user.course.as_str(), user.group.as_str()), ("Институт информатики", "2", "6201"));
    assert_eq!(course_prompt("ИИК"), "Институт: ИИК\nВыберите курс");
}

#[test]
fn institute_ids_read_back_from_buttons() {
    assert_eq!(institute_id("42"), 42);
    assert_eq!(institute_id("+7"), 7);
    assert_eq!(institute_id("-13"), -13);
    assert_eq!(institute_id("abc"), 0);
    assert_eq!(institute_id(""), 0);
    assert_eq!(institute_id("99999999999"), 0);
    for id in [0, 5, -5, 2147483647, -2147483648, 1000] {
        let data = signed_decimal_string(id);
        assert_eq!(data, id.to_string());
        assert_eq!(institute_id(&data), id);
    }
}

fn button(t: &str, d: &str) -> Button {
    Button { text: t.to_string(), data: d.to_string() }
}

#[test]
fn keyboards_lay_buttons_out_in_rows() {
    let rows = rows_of(vec![button("a", "1"), button("b", "2"), button("c", "3")], 2);
    assert_eq!(rows.len(), 2);
    assert_eq!(rows[0].len(), 2);
    assert_eq!(rows[1].len(), 1);
    assert_eq!(rows[1][0].text, "c");
    assert!(rows_of(vec![], 3).is_empty());
    let k = instituts_keyboard(vec![("ИИК".to_string(), 3), ("ИЭУ".to_string(), -1)]);
    assert_eq!(k.len(), 2);
    assert_eq!((k[0][0].text.as_str(), k[0][0].data.as_str()), ("ИИК", "3"));
    assert_eq!((k[1][0].text.as_str(), k[1][0].data.as_str()), ("ИЭУ", "-1"));
    let c = courses_keyboard(vec!["1".to_string(), "2".to_string(), "3".to_string(), "4".to_string()]);
    assert_eq!(c.len(), 2);
    assert_eq!(c[1][1].data, "4");
}

#[test]
fn catalogue_links_are_absolute_and_named() {
    let html = r#"<ul><li class="faculties__item"><a href="/rasp/faculty/1"> Институт информатики </a></li>
        <li class="faculties__item"><a href="/rasp/faculty/2">   </a></li>
        <li class="faculties__item"><a>Без ссылки</a></li></ul>"#;
    let links = faculty_links(html).expect("selector parses");
    assert_eq!(links.len(), 2);
    assert_eq!(links[0].text, "Институт информатики");
    assert_eq!(links[0].url, "https://ssau.ru/rasp/faculty/1");
    assert_eq!(links[1].text, "Без ссылки");
    assert_eq!(links[1].url, "https://ssau.ru");
    let groups = group_links(r#"<a class="group-catalog__group" href="/rasp?groupId=9">6101</a>"#).unwrap();
    assert_eq!(groups[0].url, "https://ssau.ru/rasp?groupId=9");
    let l = links_in(&vec!["x".to_string(), "y".to_string()], &vec![Some("/a".to_string())]);
    assert_eq!(l[1].url, "https://ssau.ru");
}

#[test]
fn replies_for_each_lookup() {
    let mut s = Schedule::new(String::new());
    s.date.weekday = 1;
    let mut days: Vec<Day> = (0..6).map(|_| Day::new()).collect();
    days[0].title = "Понедельник".to_string();
    assert_eq!(schedule_reply(&s, &Lookup::Missing), "На эту неделю расписания нету");
    assert_eq!(
        schedule_reply(&s, &Lookup::Failed),
        "Ошибка при получении данных из бд\nПожалуйста, передайте разработчику, что он бездарен"
    );
    assert_eq!(schedule_reply(&s, &Lookup::Found(Some(days.clone()))), "На эту неделю расписания нет.");
    assert_eq!(updated_text(&s, &Lookup::Missing, Required::Day), "На этот день расписания нету");
    assert_eq!(updated_text(&s, &Lookup::Failed, Required::Week), "");
    assert!(updated_text(&s, &Lookup::Found(Some(days)), Required::Day).starts_with("<b><i>Понедельник</i></b>\n<b>Ничего нету</b>\n"));
    assert!(matches!(state_for(s, Required::Day), State::DaySchedule(_)));
}
