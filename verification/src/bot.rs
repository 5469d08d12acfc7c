//! The dialogue of the bot: its states, the commands and phrases it understands,
//! the answers it gives, and how callback buttons move through the timetable.
use vstd::prelude::*;
use crate::date::{
    Date, can_go_back_a_day, can_go_forward_a_day, day_number, is_real_weekday, next_day_of,
    next_week_of, previous_day_of, previous_week_of,
};
use crate::schedule::{Schedule, stored_day_message, stored_week_message, week_view};
use crate::text::{chars_of, parse_i32, parse_i32_bytes, to_lowercase, trim, trim_seq, unicode_lowercase};
use crate::timetable::{Day, day_block, day_texts};
use vstd::string::StringSliceAdditionalSpecFns;
use vstd::utf8::{encode_utf8, is_ascii_chars, is_ascii_chars_encode_utf8};
use crate::keyboard::signed_decimal_seq;
use crate::text::{
    decimal_bytes, decimal_seq, is_digit_byte, lemma_decimal_encoding, lemma_decimal_value,
    without_plus,
};

verus! {

/// The choices a user has made while setting up: institute, course and group.
#[derive(Clone, Debug)]
pub struct User {
    pub institute: String,
    pub course: String,
    pub group: String,
}

impl User {
    /// A user who has chosen nothing yet.
    pub fn new() -> (u: User)
        ensures
            u.institute@.len() == 0,
            u.course@.len() == 0,
            u.group@.len() == 0,
    {
        User { institute: String::new(), course: String::new(), group: String::new() }
    }
}

impl Default for User {
    fn default() -> (u: User)
        ensures
            u.institute@.len() == 0,
            u.course@.len() == 0,
            u.group@.len() == 0,
    {
        User::new()
    }
}

/// The commands of the bot.
#[derive(Clone, Copy, Debug, PartialEq, Eq, Structural)]
pub enum Command {
    Help,
    Start,
    Cancel,
    Setup,
    Schedule,
}

/// Where the dialogue with a user stands.
#[derive(Clone, Debug)]
pub enum State {
    Start,
    AwaitingInstitute,
    AwaitingCourse(User),
    AwaitingGroup(User),
    WeekSchedule(Schedule),
    DaySchedule(Schedule),
}

impl Default for State {
    fn default() -> (s: State)
        ensures
            s is Start,
    {
        State::Start
    }
}

/// The handler an update goes to.
#[derive(Clone, Copy, Debug, PartialEq, Eq, Structural)]
pub enum Route {
    /// Greet and list the commands.
    Greet,
    /// Leave the dialogue.
    Cancel,
    /// Offer the institutes.
    Setup,
    /// Show this week's timetable.
    Schedule,
    /// A phrase typed in the start state.
    Message,
    /// An institute was chosen.
    Institute,
    /// A course was chosen.
    Course,
    /// A group was chosen.
    Group,
    /// A button under a week's timetable.
    WeekButton,
    /// A button under a day's timetable.
    DayButton,
}

/// The handler for a command, whatever the state.
pub open spec fn command_route(c: Command) -> Route {
    match c {
        Command::Help => Route::Greet,
        Command::Start => Route::Greet,
        Command::Cancel => Route::Cancel,
        Command::Setup => Route::Setup,
        Command::Schedule => Route::Schedule,
    }
}

/// Where a message goes: a command to its handler in every state; other text only
/// in the start state, to the phrase handler; elsewhere nowhere.
pub fn route_message(state: &State, command: Option<Command>) -> (r: Option<Route>)
    ensures
        command is Some ==> r == Some(command_route(command->0)),
        command is None ==> r == (if state is Start {
            Some(Route::Message)
        } else {
            None
        }),
{
    match command {
        Some(Command::Help) => Some(Route::Greet),
        Some(Command::Start) => Some(Route::Greet),
        Some(Command::Cancel) => Some(Route::Cancel),
        Some(Command::Setup) => Some(Route::Setup),
        Some(Command::Schedule) => Some(Route::Schedule),
        None => match state {
            State::Start => Some(Route::Message),
            _ => None,
        },
    }
}

/// Where a pressed button goes, by the state of the dialogue.
pub fn route_callback(state: &State) -> (r: Option<Route>)
    ensures
        r == match state {
            State::Start => None,
            State::AwaitingInstitute => Some(Route::Institute),
            State::AwaitingCourse(_) => Some(Route::Course),
            State::AwaitingGroup(_) => Some(Route::Group),
            State::WeekSchedule(_) => Some(Route::WeekButton),
            State::DaySchedule(_) => Some(Route::DayButton),
        },
{
    match state {
        State::Start => None,
        State::AwaitingInstitute => Some(Route::Institute),
        State::AwaitingCourse(_) => Some(Route::Course),
        State::AwaitingGroup(_) => Some(Route::Group),
        State::WeekSchedule(_) => Some(Route::WeekButton),
        State::DaySchedule(_) => Some(Route::DayButton),
    }
}

/// What to do with a phrase typed in the start state.
#[derive(Clone, Copy, Debug, PartialEq, Eq, Structural)]
pub enum MessageAction {
    /// "начать": choose an institute.
    Setup,
    /// "узнать расписание": show the timetable.
    ShowSchedule,
    /// An unknown command.
    UnknownCommand,
    /// Anything else: greet.
    Greet,
}

/// The action for the text `text` of a message: the phrases are compared trimmed
/// and lower-cased; otherwise a text starting with `/` is an unknown command.
pub open spec fn message_action(text: Seq<char>) -> MessageAction {
    let key = unicode_lowercase(trim_seq(text));
    if key == "начать"@ {
        MessageAction::Setup
    } else if key == "узнать расписание"@ {
        MessageAction::ShowSchedule
    } else if text.len() > 0 && text[0] == '/' {
        MessageAction::UnknownCommand
    } else {
        MessageAction::Greet
    }
}

/// The action for a message with text `text` (a message without text counts as empty).
pub fn classify_message(text: Option<&str>) -> (a: MessageAction)
    ensures
        a == message_action(
            match text {
                Some(t) => t@,
                None => ""@,
            },
        ),
{
    let t: &str = match text {
        Some(t) => t,
        None => "",
    };
    let trimmed = trim(t);
    let key = to_lowercase(trimmed.as_str());
    let start = String::from_str("начать");
    let show = String::from_str("узнать расписание");
    if key == start {
        MessageAction::Setup
    } else if key == show {
        MessageAction::ShowSchedule
    } else {
        let cs = chars_of(t);
        if cs.len() > 0 && cs[0] == '/' {
            MessageAction::UnknownCommand
        } else {
            MessageAction::Greet
        }
    }
}

/// The answer to an unknown command.
pub fn unknown_command_text() -> (r: String)
    ensures
        r@ == "Неизвестная команда, введите /help для просмотра доступных"@,
{
    String::from_str("Неизвестная команда, введите /help для просмотра доступных")
}

/// The greeting: the user's first name, the phrases the bot understands, the list
/// of commands `help`, and the address of the project.
pub open spec fn greeting_of(first_name: Seq<char>, help: Seq<char>) -> Seq<char> {
    "Приветствую, "@ + first_name
        + "!\nЯ бот для просмотра расписания СамГУ\n\nПомимо комманд, доступны фразы(не зависят от регистра):\n\nначать\nузнать расписание\n\n"@
        + help + "\n\nДля тех, кто хочет помочь с разработкой бота:\nhttps://github.com/NeuroBreaker/schedule_bot"@
}

/// The greeting for a user called `first_name`, with the list of commands `help`.
pub fn greeting(first_name: &str, help: &str) -> (r: String)
    ensures
        r@ == greeting_of(first_name@, help@),
{
    let mut r = String::from_str("Приветствую, ");
    r.append(first_name);
    r.append(
        "!\nЯ бот для просмотра расписания СамГУ\n\nПомимо комманд, доступны фразы(не зависят от регистра):\n\nначать\nузнать расписание\n\n",
    );
    r.append(help);
    r.append("\n\nДля тех, кто хочет помочь с разработкой бота:\nhttps://github.com/NeuroBreaker/schedule_bot");
    assert(r@ =~= greeting_of(first_name@, help@));
    r
}

/// The prompt that offers the institutes.
pub fn institute_prompt() -> (r: String)
    ensures
        r@ == "Выберите свой институт"@,
{
    String::from_str("Выберите свой институт")
}

/// The id of the institute a button sent: its data read as a number, or 0.
pub open spec fn institute_id_of(data: Seq<u8>) -> i32 {
    match parse_i32_bytes(data) {
        Some(n) => n,
        None => 0,
    }
}

/// The id of the institute whose button sent `data`.
pub fn institute_id(data: &str) -> (id: i32)
    ensures
        id == institute_id_of(data.spec_bytes()),
{
    match parse_i32(data) {
        Some(n) => n,
        None => 0,
    }
}

/// The data that the button of an institute sends (its id, in decimal) reads back as
/// that id: what [`crate::keyboard::instituts_keyboard`] writes, [`institute_id`] reads.
pub proof fn lemma_institute_button_round_trip(id: i32)
    ensures
        institute_id_of(encode_utf8(signed_decimal_seq(id as int))) == id,
{
    if id >= 0 {
        let n = id as nat;
        lemma_decimal_encoding(n);
        lemma_decimal_value(n);
        let b = decimal_bytes(n);
        assert(is_digit_byte(b[0]));
        assert(without_plus(b) == b);
        assert(parse_i32_bytes(b) == Some(id));
    } else {
        let n = (-id) as nat;
        lemma_decimal_encoding(n);
        lemma_decimal_value(n);
        reveal_strlit("-");
        let s = "-"@ + decimal_seq(n);
        let digits = decimal_seq(n);
        assert(is_ascii_chars(s)) by {
            assert forall|i: int| 0 <= i < s.len() implies '\0' <= #[trigger] s[i] <= '\u{7f}' by {
                if i > 0 {
                    assert(s[i] == digits[i - 1]);
                }
            }
        }
        is_ascii_chars_encode_utf8(s);
        is_ascii_chars_encode_utf8(digits);
        let b = encode_utf8(s);
        assert(b[0] == 45);
        assert(b.drop_first() =~= decimal_bytes(n)) by {
            assert forall|i: int| 0 <= i < b.len() - 1 implies b.drop_first()[i] == decimal_bytes(n)[i] by {
                assert(s[i + 1] == digits[i]);
            }
        }
        assert(parse_i32_bytes(b) == Some(id));
    }
}

/// The prompt that names the chosen institute and offers its courses.
pub fn course_prompt(institute: &str) -> (r: String)
    ensures
        r@ == "Институт: "@ + institute@ + "\nВыберите курс"@,
{
    let mut r = String::from_str("Институт: ");
    r.append(institute);
    r.append("\nВыберите курс");
    r
}

/// The prompt that offers the groups.
pub fn group_prompt() -> (r: String)
    ensures
        r@ == "Выберите группу"@,
{
    String::from_str("Выберите группу")
}

/// The message that closes the setup.
pub fn setup_done_text() -> (r: String)
    ensures
        r@ == "Настройка успешно завершена"@,
{
    String::from_str("Настройка успешно завершена")
}

/// The notice shown when the setup is over.
pub fn setup_done_notice() -> (r: String)
    ensures
        r@ == "Настройка закончена, можете узнать расписание\n\n/schedule\n  или\nузнать расписание"@,
{
    String::from_str("Настройка закончена, можете узнать расписание\n\n/schedule\n  или\nузнать расписание")
}

/// The state after an institute has been chosen: a course is awaited for a user
/// who has chosen only that institute.
pub fn institute_chosen(institute: String) -> (s: State)
    ensures
        s matches State::AwaitingCourse(u) && u.institute@ == institute@ && u.course@.len() == 0
            && u.group@.len() == 0,
{
    let mut u = User::new();
    u.institute = institute;
    State::AwaitingCourse(u)
}

/// The state after a course has been chosen: a group is awaited.
pub fn course_chosen(user: User, course: String) -> (s: State)
    ensures
        s matches State::AwaitingGroup(u) && u.institute == user.institute && u.course@ == course@
            && u.group == user.group,
{
    let mut u = user;
    u.course = course;
    State::AwaitingGroup(u)
}

/// The user's choices once the group has been chosen.
pub fn group_chosen(user: User, group: String) -> (u: User)
    ensures
        u.institute == user.institute,
        u.course == user.course,
        u.group@ == group@,
{
    let mut u = user;
    u.group = group;
    u
}

/// The answer to a user the bot does not know yet.
pub fn unknown_user_text() -> (r: String)
    ensures
        r@ == "Вас нету в базе данных бота\nВведите /setup для выбора факультета"@,
{
    String::from_str("Вас нету в базе данных бота\nВведите /setup для выбора факультета")
}

/// The notice shown when a timetable message could not be updated.
pub fn update_failed_notice() -> (r: String)
    ensures
        r@ == "Ошибка обновления(скорее всего текст не изменился)"@,
{
    String::from_str("Ошибка обновления(скорее всего текст не изменился)")
}

/// What a button under a timetable sends.
#[derive(Clone, Copy, Debug, PartialEq, Eq, Structural)]
pub enum ButtonAction {
    PreviousWeek,
    UpdateWeek,
    NextWeek,
    ThisWeek,
    ShowDay,
    PreviousDay,
    UpdateDay,
    NextDay,
    Today,
    ShowWeek,
    Other,
}

/// The action whose button sends `data`.
pub open spec fn button_action_of(data: Seq<char>) -> ButtonAction {
    if data == "previous week"@ {
        ButtonAction::PreviousWeek
    } else if data == "update week"@ {
        ButtonAction::UpdateWeek
    } else if data == "next week"@ {
        ButtonAction::NextWeek
    } else if data == "this week"@ {
        ButtonAction::ThisWeek
    } else if data == "day"@ {
        ButtonAction::ShowDay
    } else if data == "previous day"@ {
        ButtonAction::PreviousDay
    } else if data == "update day"@ {
        ButtonAction::UpdateDay
    } else if data == "next day"@ {
        ButtonAction::NextDay
    } else if data == "today"@ {
        ButtonAction::Today
    } else if data == "week"@ {
        ButtonAction::ShowWeek
    } else {
        ButtonAction::Other
    }
}

/// The action of the button that sent `data`.
pub fn button_action(data: &String) -> (a: ButtonAction)
    ensures
        a == button_action_of(data@),
{
    if *data == String::from_str("previous week") {
        ButtonAction::PreviousWeek
    } else if *data == String::from_str("update week") {
        ButtonAction::UpdateWeek
    } else if *data == String::from_str("next week") {
        ButtonAction::NextWeek
    } else if *data == String::from_str("this week") {
        ButtonAction::ThisWeek
    } else if *data == String::from_str("day") {
        ButtonAction::ShowDay
    } else if *data == String::from_str("previous day") {
        ButtonAction::PreviousDay
    } else if *data == String::from_str("update day") {
        ButtonAction::UpdateDay
    } else if *data == String::from_str("next day") {
        ButtonAction::NextDay
    } else if *data == String::from_str("today") {
        ButtonAction::Today
    } else if *data == String::from_str("week") {
        ButtonAction::ShowWeek
    } else {
        ButtonAction::Other
    }
}

/// Which timetable a message shows: the week or the chosen day.
#[derive(Clone, Copy, Debug, PartialEq, Eq, Structural)]
pub enum Required {
    Week,
    Day,
}

/// A button under a week's timetable: the date and view that follow. The week
/// buttons move the week, "this week" forgets the date, "day" turns to the day view;
/// any other button changes nothing.
pub open spec fn week_button_step(d: Date, a: ButtonAction) -> (Date, Required) {
    match a {
        ButtonAction::PreviousWeek => (previous_week_of(d), Required::Week),
        ButtonAction::NextWeek => (next_week_of(d), Required::Week),
        ButtonAction::ThisWeek => (Date { week: 0, weekday: 0 }, Required::Week),
        ButtonAction::ShowDay => (d, Required::Day),
        _ => (d, Required::Week),
    }
}

/// A button under a day's timetable: the date and view that follow. The day
/// buttons move the day, "today" forgets the date, "week" turns to the week view;
/// any other button changes nothing.
pub open spec fn day_button_step(d: Date, a: ButtonAction) -> (Date, Required) {
    match a {
        ButtonAction::PreviousDay => (previous_day_of(d), Required::Day),
        ButtonAction::NextDay => (next_day_of(d), Required::Day),
        ButtonAction::Today => (Date { week: 0, weekday: 0 }, Required::Day),
        ButtonAction::ShowWeek => (d, Required::Week),
        _ => (d, Required::Day),
    }
}

/// A day button can be applied to `d` without leaving the calendar.
pub open spec fn day_button_allowed(d: Date, a: ButtonAction) -> bool {
    &&& a == ButtonAction::PreviousDay ==> can_go_back_a_day(d)
    &&& a == ButtonAction::NextDay ==> can_go_forward_a_day(d)
}

/// The week buttons other than "previous week", "next week" and "this week" keep the
/// date: "update week" shows the same week again and stays in the week view, and only
/// "day" leaves the week view.
pub proof fn lemma_week_buttons_keep_date(d: Date, a: ButtonAction)
    ensures
        week_button_step(d, ButtonAction::UpdateWeek) == (d, Required::Week),
        (a != ButtonAction::PreviousWeek && a != ButtonAction::NextWeek && a
            != ButtonAction::ThisWeek) ==> week_button_step(d, a).0 == d,
        (week_button_step(d, a).1 == Required::Day) <==> (a == ButtonAction::ShowDay),
        week_button_step(d, a).0.weekday == d.weekday || a == ButtonAction::ThisWeek,
{
}

/// The day buttons other than "previous day", "next day" and "today" keep the date:
/// "update day" shows the same day again and stays in the day view, and only "week"
/// leaves the day view. "Previous day" and "next day" move exactly one day.
pub proof fn lemma_day_buttons_move_one_day(d: Date, a: ButtonAction)
    requires
        day_button_allowed(d, a),
    ensures
        day_button_step(d, ButtonAction::UpdateDay) == (d, Required::Day),
        (a != ButtonAction::PreviousDay && a != ButtonAction::NextDay && a != ButtonAction::Today)
            ==> day_button_step(d, a).0 == d,
        (day_button_step(d, a).1 == Required::Week) <==> (a == ButtonAction::ShowWeek),
        a == ButtonAction::PreviousDay ==> day_number(day_button_step(d, a).0) == day_number(d) - 1,
        a == ButtonAction::NextDay ==> day_number(day_button_step(d, a).0) == day_number(d) + 1,
{
}

/// Applies a button under a week's timetable to the date shown.
pub fn press_week_button(date: &mut Date, action: ButtonAction) -> (v: Required)
    ensures
        (*final(date), v) == week_button_step(*old(date), action),
        action == ButtonAction::UpdateWeek ==> *final(date) == *old(date) && v == Required::Week,
        (action != ButtonAction::PreviousWeek && action != ButtonAction::NextWeek && action
            != ButtonAction::ThisWeek) ==> *final(date) == *old(date),
        (v == Required::Day) <==> (action == ButtonAction::ShowDay),
        action == ButtonAction::ThisWeek ==> final(date).week == 0 && final(date).weekday == 0,
        action != ButtonAction::ThisWeek ==> final(date).weekday == old(date).weekday,
        action == ButtonAction::PreviousWeek && old(date).week > 1 ==> final(date).week + 1
            == old(date).week,
        action == ButtonAction::NextWeek && old(date).week < 65535 ==> final(date).week
            == old(date).week + 1,
        action == ButtonAction::PreviousWeek && old(date).week <= 1 ==> *final(date) == *old(date),
        action == ButtonAction::NextWeek && old(date).week == 65535 ==> *final(date) == *old(date),
{
    match action {
        ButtonAction::PreviousWeek => {
            date.previous_week();
            Required::Week
        },
        ButtonAction::NextWeek => {
            date.next_week();
            Required::Week
        },
        ButtonAction::ThisWeek => {
            date.reset();
            Required::Week
        },
        ButtonAction::ShowDay => Required::Day,
        _ => Required::Week,
    }
}

/// Whether [`press_day_button`] may apply `action` to `date`.
pub fn day_button_ok(date: &Date, action: ButtonAction) -> (b: bool)
    ensures
        b == day_button_allowed(*date, action),
{
    match action {
        ButtonAction::PreviousDay => date.may_go_back_a_day(),
        ButtonAction::NextDay => date.may_go_forward_a_day(),
        _ => true,
    }
}

/// Applies a button under a day's timetable to the date shown.
pub fn press_day_button(date: &mut Date, action: ButtonAction) -> (v: Required)
    requires
        day_button_allowed(*old(date), action),
    ensures
        (*final(date), v) == day_button_step(*old(date), action),
        action == ButtonAction::UpdateDay ==> *final(date) == *old(date) && v == Required::Day,
        (action != ButtonAction::PreviousDay && action != ButtonAction::NextDay && action
            != ButtonAction::Today) ==> *final(date) == *old(date),
        (v == Required::Week) <==> (action == ButtonAction::ShowWeek),
        action == ButtonAction::Today ==> final(date).week == 0 && final(date).weekday == 0,
        action == ButtonAction::PreviousDay ==> day_number(*final(date)) == day_number(*old(date))
            - 1,
        action == ButtonAction::NextDay ==> day_number(*final(date)) == day_number(*old(date)) + 1,
        (action == ButtonAction::PreviousDay || action == ButtonAction::NextDay) && is_real_weekday(
            *old(date),
        ) ==> is_real_weekday(*final(date)),
{
    match action {
        ButtonAction::PreviousDay => {
            date.previous_day();
            Required::Day
        },
        ButtonAction::NextDay => {
            date.next_day();
            Required::Day
        },
        ButtonAction::Today => {
            date.reset();
            Required::Day
        },
        ButtonAction::ShowWeek => Required::Week,
        _ => Required::Day,
    }
}

/// The state that shows `schedule` in the view `v`.
pub fn state_for(schedule: Schedule, v: Required) -> (s: State)
    ensures
        v == Required::Week ==> s == State::WeekSchedule(schedule),
        v == Required::Day ==> s == State::DaySchedule(schedule),
{
    match v {
        Required::Week => State::WeekSchedule(schedule),
        Required::Day => State::DaySchedule(schedule),
    }
}

/// What reading a stored week from the database gave.
#[derive(Clone, Debug)]
pub enum Lookup {
    /// The database could not be asked.
    Failed,
    /// No week is stored for this group and week.
    Missing,
    /// A week is stored; `None` where its JSON does not read as days.
    Found(Option<Vec<Day>>),
}

/// The message that the "show the timetable" handler sends.
pub open spec fn schedule_reply_of(weekday: u8, lookup: Lookup) -> Seq<char> {
    match lookup {
        Lookup::Found(week) => stored_week_message(week_view(week)),
        Lookup::Missing => "На эту неделю расписания нету"@,
        Lookup::Failed => "Ошибка при получении данных из бд\nПожалуйста, передайте разработчику, что он бездарен"@,
    }
}

/// The message that the "show the timetable" handler sends for this week.
pub fn schedule_reply(schedule: &Schedule, lookup: &Lookup) -> (r: String)
    ensures
        r@ == schedule_reply_of(schedule.date.weekday, *lookup),
        *lookup matches Lookup::Found(week) ==> r@ == stored_week_message(week_view(week)),
        *lookup matches Lookup::Missing ==> r@ == "На эту неделю расписания нету"@,
{
    match lookup {
        Lookup::Found(week) => schedule.format_week(week),
        Lookup::Missing => String::from_str("На эту неделю расписания нету"),
        Lookup::Failed => String::from_str(
            "Ошибка при получении данных из бд\nПожалуйста, передайте разработчику, что он бездарен",
        ),
    }
}

/// The text a timetable message is edited to after a button: the week or the day
/// shown, a note where nothing is stored, nothing where the database failed.
pub open spec fn updated_text_of(weekday: u8, lookup: Lookup, v: Required) -> Seq<char> {
    match lookup {
        Lookup::Found(week) => match v {
            Required::Day => stored_day_message(week_view(week), weekday),
            Required::Week => stored_week_message(week_view(week)),
        },
        Lookup::Missing => "На этот день расписания нету"@,
        Lookup::Failed => Seq::<char>::empty(),
    }
}

/// In the week view a found week is refreshed to the whole week's message, whatever
/// weekday is chosen: the same text that answers the command that shows the timetable.
/// The weekday only matters in the day view.
pub proof fn lemma_week_view_ignores_weekday(w1: u8, w2: u8, lookup: Lookup)
    ensures
        updated_text_of(w1, lookup, Required::Week) == updated_text_of(w2, lookup, Required::Week),
        lookup matches Lookup::Found(week) ==> updated_text_of(w1, lookup, Required::Week)
            == stored_week_message(week_view(week)),
        lookup matches Lookup::Found(_) ==> updated_text_of(w1, lookup, Required::Week)
            == schedule_reply_of(w2, lookup),
{
}

/// The stored week can be shown in view `v` for the chosen weekday.
pub open spec fn can_show(weekday: u8, lookup: Lookup, v: Required) -> bool {
    (v == Required::Day && lookup matches Lookup::Found(Some(_))) ==> weekday >= 1
}

/// The text a timetable message is edited to after a button.
pub fn updated_text(schedule: &Schedule, lookup: &Lookup, v: Required) -> (r: String)
    requires
        can_show(schedule.date.weekday, *lookup, v),
    ensures
        r@ == updated_text_of(schedule.date.weekday, *lookup, v),
        *lookup matches Lookup::Found(week) ==> (v == Required::Week ==> r@ == stored_week_message(
            week_view(week),
        )),
        *lookup matches Lookup::Found(_) ==> (v == Required::Week ==> r@ == schedule_reply_of(
            schedule.date.weekday,
            *lookup,
        )),
        *lookup matches Lookup::Found(Some(days)) ==> (v == Required::Day && 1
            <= schedule.date.weekday <= days@.len() ==> r@ == day_block(
            day_texts(days@)[schedule.date.weekday - 1],
        )),
        *lookup matches Lookup::Missing ==> r@ == "На этот день расписания нету"@,
        *lookup matches Lookup::Failed ==> r@.len() == 0,
{
    match lookup {
        Lookup::Found(week) => match v {
            Required::Day => schedule.format_day(week),
            Required::Week => schedule.format_week(week),
        },
        Lookup::Missing => String::from_str("На этот день расписания нету"),
        Lookup::Failed => String::new(),
    }
}

/// Whether [`updated_text`] may be asked for this view.
pub fn may_show(schedule: &Schedule, lookup: &Lookup, v: Required) -> (b: bool)
    ensures
        b == can_show(schedule.date.weekday, *lookup, v),
{
    match (v, lookup) {
        (Required::Day, Lookup::Found(Some(_))) => schedule.date.weekday >= 1,
        _ => true,
    }
}

} // verus!
