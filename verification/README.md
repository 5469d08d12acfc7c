# schedule_bot

A Telegram bot that shows the timetable of Samara University (ssau.ru): a user
picks an institute, a course and a group once, then asks for the week or a day
and pages through weeks and days with buttons.

The logic is a library verified with Verus (`src/`):

- `date` — the week and weekday shown, and the moves of the navigation buttons;
- `page`, `scrape` — reading a timetable page into six days of lessons;
- `timetable`, `schedule` — lessons and days, their message text, the page
  address, the current week, the fingerprint of a stored week;
- `catalog` — the links of the site's catalogue of faculties, courses and groups;
- `keyboard` — buttons laid out in rows;
- `bot` — dialogue states, routing of updates, phrases and answers;
- `text` — trimming, case mapping, search and replacement, decimal numbers.

`app/` is the program around it: Telegram (teloxide), PostgreSQL (sqlx), HTTP
(reqwest) and JSON (serde).
