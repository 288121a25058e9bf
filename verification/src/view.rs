//! What the window shows: which scene is on screen, the labels of phases
//! and sessions, the account shown on the home page, the statistics of the
//! session history, and where the navigation buttons lead.
use vstd::prelude::*;
use vstd::string::StringSliceAdditionalSpecFns;
use vstd::utf8::{decode_utf8, encode_utf8, is_char_boundary};
use crate::app::{App, Effect, HistoryItem, Page, QuestionHistory, QuizPhase, SessionHistory, SessionStatus};
use crate::config::{join_seq, join_strings, texts, PresetTemplate};
use crate::events::MAX_LLM_RETRIES;
use crate::flow::{config_entered, login_entered, quiz_entered, went_back};
use crate::text::{str_equal, decimal, decimal_int, decimal_of_i64, decimal_of_u128, push_char, push_chars, push_str};

verus! {

/// The views of the main window outside the quiz.
#[derive(Debug, Clone, Copy, PartialEq, Eq, Structural)]
pub enum GuiView {
    Home,
    History,
    HistoryDetail,
    Settings,
}

/// The number of a view in the scene key.
pub open spec fn view_number(v: GuiView) -> u64 {
    match v {
        GuiView::Home => 1,
        GuiView::History => 2,
        GuiView::HistoryDetail => 3,
        GuiView::Settings => 4,
    }
}

/// The number of a page in the scene key.
pub open spec fn page_number(p: Page) -> u64 {
    match p {
        Page::Home => 10,
        Page::Config => 20,
        Page::Quiz => 30,
    }
}

/// The number of a phase in the scene key; phases shown alike share it.
pub open spec fn phase_number(p: QuizPhase) -> u64 {
    match p {
        QuizPhase::NotConfigured => 1,
        QuizPhase::LoggingIn => 2,
        QuizPhase::WaitingScan { .. } => 2,
        QuizPhase::LoginTimeout { .. } => 3,
        QuizPhase::CheckingLevel => 4,
        QuizPhase::LevelVerified { .. } => 5,
        QuizPhase::LevelInsufficient { .. } => 6,
        QuizPhase::LevelCheckFailed(_) => 6,
        QuizPhase::FetchingQuestion => 7,
        QuizPhase::Captcha(_) => 8,
        QuizPhase::WaitingLlm => 9,
        QuizPhase::WaitingRetry { .. } => 9,
        QuizPhase::Submitting => 10,
        QuizPhase::ShowingResult { .. } => 10,
        QuizPhase::Finished { .. } => 11,
        QuizPhase::Error(_) => 12,
    }
}

/// A number that changes whenever the scene on screen changes, so that the
/// window can animate the change.
pub fn scene_key(view: GuiView, page: Page, phase: &QuizPhase) -> (k: u64)
    ensures
        k == page_number(page) + view_number(view) * 100 + phase_number(*phase) * 1000,
{
    let v: u64 = match view {
        GuiView::Home => 1,
        GuiView::History => 2,
        GuiView::HistoryDetail => 3,
        GuiView::Settings => 4,
    };
    let p: u64 = match page {
        Page::Home => 10,
        Page::Config => 20,
        Page::Quiz => 30,
    };
    let f: u64 = match phase {
        QuizPhase::NotConfigured => 1,
        QuizPhase::LoggingIn | QuizPhase::WaitingScan { .. } => 2,
        QuizPhase::LoginTimeout { .. } => 3,
        QuizPhase::CheckingLevel => 4,
        QuizPhase::LevelVerified { .. } => 5,
        QuizPhase::LevelInsufficient { .. } | QuizPhase::LevelCheckFailed(_) => 6,
        QuizPhase::FetchingQuestion => 7,
        QuizPhase::Captcha(_) => 8,
        QuizPhase::WaitingLlm | QuizPhase::WaitingRetry { .. } => 9,
        QuizPhase::Submitting | QuizPhase::ShowingResult { .. } => 10,
        QuizPhase::Finished { .. } => 11,
        QuizPhase::Error(_) => 12,
    };
    p + v * 100 + f * 1_000
}

/// The label of a phase, as the status badge shows it.
pub open spec fn phase_text(p: QuizPhase) -> Seq<char> {
    match p {
        QuizPhase::NotConfigured => "等待模型配置"@,
        QuizPhase::LoggingIn => "B 站账号登录"@,
        QuizPhase::WaitingScan { .. } => "B 站账号登录"@,
        QuizPhase::LoginTimeout { .. } => "B 站账号登录"@,
        QuizPhase::CheckingLevel => "验证账号资格"@,
        QuizPhase::LevelVerified { .. } => "账号资格已通过"@,
        QuizPhase::LevelInsufficient { .. } => "账号资格需处理"@,
        QuizPhase::LevelCheckFailed(_) => "账号资格需处理"@,
        QuizPhase::FetchingQuestion => "准备答题内容"@,
        QuizPhase::Captcha(_) => "准备答题内容"@,
        QuizPhase::WaitingLlm => "AI 分析题目"@,
        QuizPhase::WaitingRetry { .. } => "AI 分析题目"@,
        QuizPhase::Submitting => "提交与验证答案"@,
        QuizPhase::ShowingResult { .. } => "提交与验证答案"@,
        QuizPhase::Finished { .. } => "答题完成"@,
        QuizPhase::Error(_) => "需要处理"@,
    }
}

/// The label of a phase.
pub fn phase_label(phase: &QuizPhase) -> (s: &'static str)
    ensures
        s@ == phase_text(*phase),
{
    match phase {
        QuizPhase::NotConfigured => "等待模型配置",
        QuizPhase::LoggingIn | QuizPhase::WaitingScan { .. } | QuizPhase::LoginTimeout { .. } => "B 站账号登录",
        QuizPhase::CheckingLevel => "验证账号资格",
        QuizPhase::LevelVerified { .. } => "账号资格已通过",
        QuizPhase::LevelInsufficient { .. } | QuizPhase::LevelCheckFailed(_) => "账号资格需处理",
        QuizPhase::FetchingQuestion | QuizPhase::Captcha(_) => "准备答题内容",
        QuizPhase::WaitingLlm | QuizPhase::WaitingRetry { .. } => "AI 分析题目",
        QuizPhase::Submitting | QuizPhase::ShowingResult { .. } => "提交与验证答案",
        QuizPhase::Finished { .. } => "答题完成",
        QuizPhase::Error(_) => "需要处理",
    }
}

/// The label of how a session ended.
pub open spec fn status_text(s: SessionStatus) -> Seq<char> {
    match s {
        SessionStatus::Passed => "已通过"@,
        SessionStatus::Failed => "未通过"@,
        SessionStatus::Interrupted => "异常终止"@,
    }
}

/// The label of how a session ended.
pub fn session_status_label(status: SessionStatus) -> (s: &'static str)
    ensures
        s@ == status_text(status),
{
    match status {
        SessionStatus::Passed => "已通过",
        SessionStatus::Failed => "未通过",
        SessionStatus::Interrupted => "异常终止",
    }
}

/// The account id as the home page shows it: in full when it is at most
/// four bytes long, else its first two and last two bytes around `****`.
pub open spec fn masked(uid: Seq<char>) -> Seq<char> {
    let b = encode_utf8(uid);
    if b.len() <= 4 {
        "UID "@ + uid
    } else {
        "UID "@ + decode_utf8(b.subrange(0, 2)) + "****"@ + decode_utf8(b.subrange(b.len() - 2, b.len() as int))
    }
}

/// Shows an account id with its middle hidden. The id is cut at byte
/// positions, which must fall between characters.
pub fn masked_uid(uid: &str) -> (s: String)
    requires
        encode_utf8(uid@).len() <= usize::MAX,
        encode_utf8(uid@).len() > 4 ==> is_char_boundary(encode_utf8(uid@), 2)
            && is_char_boundary(encode_utf8(uid@), encode_utf8(uid@).len() - 2),
    ensures
        s@ == masked(uid@),
{
    let mut s = String::from_str("UID ");
    let n = uid.len();
    proof {
        vstd::utf8::encode_utf8_valid_utf8(uid@);
        assert(n == encode_utf8(uid@).len());
    }
    if n <= 4 {
        push_str(&mut s, uid);
        return s;
    }
    let (prefix, _) = uid.split_at(2);
    let (_, suffix) = uid.split_at(n - 2);
    proof {
        vstd::utf8::encode_utf8_decode_utf8(prefix@);
        vstd::utf8::encode_utf8_decode_utf8(suffix@);
    }
    push_str(&mut s, prefix);
    push_str(&mut s, "****");
    push_str(&mut s, suffix);
    s
}

/// What `time` gives for the Unix time `ts` shown at UTC plus
/// `offset_hours` and written with the format description `pattern`, or
/// `None` where `OffsetDateTime::from_unix_timestamp` refuses `ts`, where
/// `format_description::parse` refuses `pattern`, or where `format` fails.
pub uninterp spec fn local_time_text_of(ts: i64, offset_hours: i8, pattern: Seq<char>) -> Option<Seq<char>>;

/// The first Unix time that `OffsetDateTime::from_unix_timestamp` accepts
/// by default (the first second of the year -9999, UTC).
pub const EARLIEST_UNIX_TIME: i64 = -377705116800;

/// The last Unix time that `OffsetDateTime::from_unix_timestamp` accepts
/// by default (the last second of the year 9999, UTC).
pub const LATEST_UNIX_TIME: i64 = 253402300799;

/// The latest Unix time whose UTC+8 date is still within that range.
pub const LATEST_SHOWN_TIME: i64 = 253402300799 - 28800;

/// The offset from UTC, in hours, at which session times are shown.
pub const SHOWN_OFFSET_HOURS: i8 = 8;

/// How session times are written.
pub const SHOWN_TIME_PATTERN: &'static str = "[year]-[month]-[day] [hour]:[minute]";

/// Formats `ts` with the `time` crate: `OffsetDateTime::from_unix_timestamp`,
/// `to_offset` to `UtcOffset::from_hms(offset_hours, 0, 0)` and `format`
/// with the description that `format_description::parse` reads from
/// `pattern`. The contract names the result, and states what the crate
/// documents of `from_unix_timestamp`: it refuses a time outside the years
/// -9999 to 9999, and then there is no text. `from_hms` accepts the hours
/// that `requires` admits. `to_offset` panics where the shifted time leaves
/// the range that `from_unix_timestamp` accepts, which `requires` rules out.
#[verifier::external_body]
fn local_time_text(ts: i64, offset_hours: i8, pattern: &str) -> (t: Option<String>)
    requires
        -25 <= offset_hours <= 25,
        ts < EARLIEST_UNIX_TIME || ts > LATEST_UNIX_TIME
            || EARLIEST_UNIX_TIME <= ts + offset_hours * 3600 <= LATEST_UNIX_TIME,
    ensures
        match t {
            Some(s) => local_time_text_of(ts, offset_hours, pattern@) == Some(s@),
            None => local_time_text_of(ts, offset_hours, pattern@) is None,
        },
        ts < EARLIEST_UNIX_TIME || ts > LATEST_UNIX_TIME ==> t is None,
{
    let time = match time::OffsetDateTime::from_unix_timestamp(ts) {
        Ok(t) => t,
        Err(_) => return None,
    };
    let offset = time::UtcOffset::from_hms(offset_hours, 0, 0).unwrap_or(time::UtcOffset::UTC);
    let description = time::format_description::parse(pattern).ok()?;
    time.to_offset(offset).format(&description).ok()
}

/// What stands in for a time that cannot be shown.
pub const NOT_RECORDED: &'static str = "未记录";

/// A session time as the history shows it: at UTC+8, as
/// `[year]-[month]-[day] [hour]:[minute]`; a time outside the years -9999 to
/// 9999 shows as "未记录".
pub fn format_time(timestamp: i64) -> (s: String)
    requires
        timestamp <= LATEST_SHOWN_TIME || timestamp > LATEST_UNIX_TIME,
    ensures
        s@ == (match local_time_text_of(timestamp, SHOWN_OFFSET_HOURS, SHOWN_TIME_PATTERN@) {
            Some(t) => t,
            None => NOT_RECORDED@,
        }),
        timestamp < EARLIEST_UNIX_TIME || timestamp > LATEST_UNIX_TIME ==> s@ == NOT_RECORDED@,
{
    match local_time_text(timestamp, SHOWN_OFFSET_HOURS, SHOWN_TIME_PATTERN) {
        Some(t) => t,
        None => String::from_str(NOT_RECORDED),
    }
}

/// The number of passed sessions.
pub open spec fn passed_sessions(s: Seq<SessionHistory>) -> nat
    decreases s.len(),
{
    if s.len() == 0 {
        0
    } else {
        passed_sessions(s.drop_last()) + (if s.last().status == SessionStatus::Passed { 1nat } else { 0 })
    }
}

/// The number of passed sessions.
pub fn passed_count(sessions: &Vec<SessionHistory>) -> (n: usize)
    ensures
        n == passed_sessions(sessions@),
{
    let mut n: usize = 0;
    let mut i: usize = 0;
    while i < sessions.len()
        invariant
            i <= sessions@.len(),
            n == passed_sessions(sessions@.take(i as int)),
            n <= i,
        decreases sessions@.len() - i,
    {
        proof {
            assert(sessions@.take(i + 1).drop_last() =~= sessions@.take(i as int));
        }
        if sessions[i].status == SessionStatus::Passed {
            n = n + 1;
        }
        i = i + 1;
    }
    proof {
        assert(sessions@.take(sessions@.len() as int) =~= sessions@);
    }
    n
}

/// The sum of the session scores.
pub open spec fn score_sum(s: Seq<SessionHistory>) -> int
    decreases s.len(),
{
    if s.len() == 0 {
        0
    } else {
        score_sum(s.drop_last()) + s.last().score
    }
}

/// Every running total of the scores fits in an `i64`, as summing them needs.
pub open spec fn sums_fit(s: Seq<SessionHistory>) -> bool {
    forall|k: int| 0 <= k <= s.len() ==> i64::MIN <= #[trigger] score_sum(s.take(k)) <= i64::MAX
}

/// `a / b` rounded toward zero, as integer division does.
pub open spec fn div_toward_zero(a: int, b: int) -> int {
    if a >= 0 {
        a / b
    } else {
        -((-a) / b)
    }
}

/// The average score of the sessions, rounded toward zero; `None` without sessions.
pub fn average_score(sessions: &Vec<SessionHistory>) -> (avg: Option<i64>)
    requires
        sums_fit(sessions@),
        sessions@.len() <= i64::MAX,
    ensures
        sessions@.len() == 0 ==> avg is None,
        sessions@.len() > 0 ==> avg == Some(div_toward_zero(score_sum(sessions@), sessions@.len() as int) as i64),
{
    if sessions.len() == 0 {
        return None;
    }
    let mut sum: i64 = 0;
    let mut i: usize = 0;
    while i < sessions.len()
        invariant
            i <= sessions@.len(),
            sums_fit(sessions@),
            sum == score_sum(sessions@.take(i as int)),
        decreases sessions@.len() - i,
    {
        proof {
            assert(sessions@.take(i + 1).drop_last() =~= sessions@.take(i as int));
            assert(i64::MIN <= score_sum(sessions@.take(i + 1)) <= i64::MAX);
        }
        sum = sum + sessions[i].score;
        i = i + 1;
    }
    proof {
        assert(sessions@.take(sessions@.len() as int) =~= sessions@);
    }
    let count = sessions.len() as i64;
    Some(divide_toward_zero(sum, count))
}

/// `a / b` rounded toward zero.
pub fn divide_toward_zero(a: i64, b: i64) -> (q: i64)
    requires
        b > 0,
    ensures
        q == div_toward_zero(a as int, b as int),
{
    if a >= 0 {
        a / b
    } else {
        let m: u64 = ((-(a + 1)) as u64) + 1;
        let d: u64 = m / (b as u64);
        assert(d <= m) by (nonlinear_arith)
            requires
                b >= 1,
                d == m / (b as u64),
        ;
        (-(d as i128)) as i64
    }
}

/// Answers correct per hundred answered, rounded toward zero: the score
/// over the questions before the current one.
pub open spec fn accuracy_of(score: i64, question_num: u32) -> int {
    if question_num > 1 {
        div_toward_zero(score * 100, question_num - 1)
    } else {
        0
    }
}

/// The share of correct answers so far, in percent.
pub fn accuracy(score: i64, question_num: u32) -> (p: i64)
    requires
        i64::MIN <= score * 100 <= i64::MAX,
    ensures
        p == accuracy_of(score, question_num),
{
    if question_num > 1 {
        divide_toward_zero(score * 100, (question_num - 1) as i64)
    } else {
        0
    }
}

/// The main button of the home page.
#[derive(Debug, Clone, Copy, PartialEq, Eq, Structural)]
pub enum HomeAction {
    /// Log in to the site.
    Login,
    /// Configure the language model.
    ConfigureModel,
    /// Start answering.
    StartQuiz,
}

/// The main button of the home page: log in first, then configure the
/// model, then start.
pub open spec fn primary_action(a: App) -> HomeAction {
    if a.auth is None {
        HomeAction::Login
    } else if a.config is None {
        HomeAction::ConfigureModel
    } else {
        HomeAction::StartQuiz
    }
}

/// The main button of the home page.
pub fn home_primary_action(app: &App) -> (h: HomeAction)
    ensures
        h == primary_action(*app),
{
    if app.auth.is_none() {
        HomeAction::Login
    } else if app.config.is_none() {
        HomeAction::ConfigureModel
    } else {
        HomeAction::StartQuiz
    }
}

/// The second button of the home page, shown while something is missing:
/// the model settings when no model is configured, else the login.
pub open spec fn secondary_action(a: App) -> Option<HomeAction> {
    if a.config is Some && a.auth is Some {
        None
    } else if a.config is None {
        Some(HomeAction::ConfigureModel)
    } else {
        Some(HomeAction::StartQuiz)
    }
}

/// The second button of the home page, if any.
pub fn home_secondary_action(app: &App) -> (h: Option<HomeAction>)
    ensures
        h == secondary_action(*app),
{
    if app.config.is_some() && app.auth.is_some() {
        None
    } else if app.config.is_none() {
        Some(HomeAction::ConfigureModel)
    } else {
        Some(HomeAction::StartQuiz)
    }
}

impl App {
    /// Carries out a button of the home page.
    pub fn perform_home_action(&mut self, action: HomeAction) -> (effects: Vec<Effect>)
        ensures
            action == HomeAction::Login ==> login_entered(*old(self), *final(self), effects@),
            action == HomeAction::StartQuiz ==> quiz_entered(*old(self), *final(self), effects@),
            action == HomeAction::ConfigureModel ==> config_entered(*old(self), *final(self)) && effects@.len() == 0,
    {
        match action {
            HomeAction::Login => self.enter_login(),
            HomeAction::StartQuiz => self.enter_quiz(),
            HomeAction::ConfigureModel => self.enter_config(),
        }
    }
}

/// The state of the window around the pages: the view shown, the session
/// opened in the history, and the open confirmation dialogs.
pub struct Shell {
    pub view: GuiView,
    pub selected_session: Option<usize>,
    pub exit_quiz_confirm: bool,
    pub logout_confirm: bool,
}

/// The first step of navigating: leaving the quiz, if it is open.
pub open spec fn left_quiz(a: App, m: App, now: i64, effects: Seq<Effect>) -> bool {
    if a.page == Page::Quiz {
        went_back(a, m, now, effects)
    } else {
        m == a && effects.len() == 0
    }
}

/// The second step of navigating to `view`: the settings open the settings
/// page; any other view closes it and shows the home page.
pub open spec fn reached(m: App, b: App, view: GuiView, now: i64, effects: Seq<Effect>) -> bool {
    if view == GuiView::Settings {
        if m.page != Page::Config {
            config_entered(m, b) && effects.len() == 0
        } else {
            b == m && effects.len() == 0
        }
    } else if m.page == Page::Config {
        b.page == Page::Home && exists|p: Page| went_back(m, App { page: p, ..b }, now, effects)
    } else {
        b == (App { page: Page::Home, ..m }) && effects.len() == 0
    }
}

/// `b` with its page replaced by `p`.
pub open spec fn m2_of(b: App, p: Page) -> App {
    App { page: p, ..b }
}

/// `s1`, `b` and `effects` are `s0` and `a` after navigating to `view`.
pub open spec fn navigated(s0: Shell, a: App, s1: Shell, b: App, view: GuiView, now: i64, effects: Seq<Effect>) -> bool {
    &&& s1 == (Shell {
        view,
        selected_session: if view == GuiView::HistoryDetail { s0.selected_session } else { None },
        ..s0
    })
    &&& exists|m: App, k: int| 0 <= k <= effects.len()
        && left_quiz(a, m, now, effects.take(k))
        && reached(m, b, view, now, effects.skip(k))
}

impl App {
    /// The second step of navigating to `view`.
    fn reach_view(&mut self, view: GuiView, now: i64) -> (effects: Vec<Effect>)
        ensures
            reached(*old(self), *final(self), view, now, effects@),
    {
        match view {
            GuiView::Settings => {
                if self.page != Page::Config {
                    self.enter_config()
                } else {
                    Vec::new()
                }
            },
            _ => {
                if self.page == Page::Config {
                    let effects = self.back(now);
                    let ghost p = self.page;
                    self.page = Page::Home;
                    proof {
                        assert(m2_of(*self, p) == App { page: p, ..*self });
                        assert(went_back(*old(self), m2_of(*self, p), now, effects@));
                    }
                    effects
                } else {
                    self.page = Page::Home;
                    Vec::new()
                }
            },
        }
    }

    /// The first step of navigating: leaving the quiz, if it is open.
    fn leave_quiz(&mut self, now: i64) -> (effects: Vec<Effect>)
        ensures
            left_quiz(*old(self), *final(self), now, effects@),
    {
        if self.page == Page::Quiz {
            self.back(now)
        } else {
            Vec::new()
        }
    }
}

impl Shell {
    /// Shows `view`: leaves the quiz if it is open, and opens or closes the
    /// settings page as the view needs.
    pub fn navigate(&mut self, app: &mut App, view: GuiView, now: i64) -> (effects: Vec<Effect>)
        ensures
            navigated(*old(self), *old(app), *final(self), *final(app), view, now, effects@),
    {
        self.selected_session = if view == GuiView::HistoryDetail {
            self.selected_session
        } else {
            None
        };
        let mut effects = app.leave_quiz(now);
        let ghost m = *app;
        let ghost e1 = effects@;
        self.view = view;
        let more = app.reach_view(view, now);
        crate::flow::add_effects(&mut effects, more);
        proof {
            assert(effects@.take(e1.len() as int) =~= e1);
            assert(effects@.skip(e1.len() as int) =~= more@);
        }
        effects
    }
}

/// How an option is marked on the question panel: `None` for an option
/// that was not chosen; for the chosen one, whether it was right once the
/// result is shown, and `true` before.
pub open spec fn mark_of(phase: QuizPhase, chosen_answer_idx: usize, index: usize) -> Option<bool> {
    if index + 1 == chosen_answer_idx {
        match phase {
            QuizPhase::ShowingResult { correct, .. } => Some(correct),
            _ => Some(true),
        }
    } else {
        None
    }
}

/// How the option at `index` is marked.
pub fn answer_mark(phase: &QuizPhase, chosen_answer_idx: usize, index: usize) -> (m: Option<bool>)
    requires
        index < usize::MAX,
    ensures
        m == mark_of(*phase, chosen_answer_idx, index),
{
    if index + 1 == chosen_answer_idx {
        match phase {
            QuizPhase::ShowingResult { correct, .. } => Some(*correct),
            _ => Some(true),
        }
    } else {
        None
    }
}

/// The letter of the option at `index`: `A` for the first. The index is
/// taken as a byte (its remainder by 256) and added to the code of `A`,
/// which must stay within a byte.
pub fn option_letter(index: usize) -> (c: char)
    requires
        index % 256 < 191,
    ensures
        c as int == 'A' as int + index % 256,
{
    let b: u8 = 65u8 + (index % 256) as u8;
    b as char
}

/// What was submitted for an answered question: the letter and text of the
/// chosen option, or "未记录" where the choice names no option.
pub open spec fn submitted_text(q: QuestionHistory) -> Seq<char> {
    if 1 <= q.chosen_index <= q.options@.len() {
        seq![('A' as int + (q.chosen_index - 1) % 256) as char] + " · "@ + q.options@[q.chosen_index - 1]@
    } else {
        NOT_RECORDED@
    }
}

/// The submitted option of an answered question, as the history shows it.
pub fn submitted_answer_text(q: &QuestionHistory) -> (s: String)
    requires
        1 <= q.chosen_index <= q.options@.len() ==> (q.chosen_index - 1) % 256 < 191,
    ensures
        s@ == submitted_text(*q),
{
    if q.chosen_index >= 1 && q.chosen_index - 1 < q.options.len() {
        let mut s = String::new();
        push_char(&mut s, option_letter(q.chosen_index - 1));
        push_str(&mut s, " · ");
        push_str(&mut s, q.options[q.chosen_index - 1].as_str());
        s
    } else {
        String::from_str(NOT_RECORDED)
    }
}

/// What stands for the categories of a session that recorded none.
pub const NO_CATEGORIES: &'static str = "分类未记录";

/// The categories of a session, joined by `sep`, or "分类未记录".
pub open spec fn categories_text(categories: Seq<Seq<char>>, sep: Seq<char>) -> Seq<char> {
    if categories.len() == 0 {
        NO_CATEGORIES@
    } else {
        join_seq(categories, sep)
    }
}

/// The categories of a session as a line of text.
pub fn categories_label(categories: &Vec<String>, sep: &str) -> (s: String)
    ensures
        s@ == categories_text(texts(categories@), sep@),
{
    if categories.len() == 0 {
        String::from_str(NO_CATEGORIES)
    } else {
        join_strings(categories, sep)
    }
}

/// The summary under a session's status: score, progress and categories.
pub open spec fn summary_text(s: SessionHistory) -> Seq<char> {
    decimal_int(s.score as int) + " 分 · 完成 "@ + decimal(s.completed_questions as nat) + "/100 · "@
        + categories_text(texts(s.categories@), " / "@)
}

/// The summary line of a session.
pub fn session_summary_line(session: &SessionHistory) -> (line: String)
    ensures
        line@ == summary_text(*session),
{
    let mut line = String::new();
    push_chars(&mut line, &decimal_of_i64(session.score));
    push_str(&mut line, " 分 · 完成 ");
    push_chars(&mut line, &decimal_of_u128(session.completed_questions as u128));
    push_str(&mut line, "/100 · ");
    let cats = categories_label(&session.categories, " / ");
    push_str(&mut line, cats.as_str());
    line
}

/// The notice while a retry of the model request is pending.
pub open spec fn retry_text(remaining_secs: u64, attempt: u32) -> Seq<char> {
    "模型请求超时，"@ + decimal(remaining_secs as nat) + " 秒后进行第 "@ + decimal(attempt as nat) + "/"@
        + decimal(MAX_LLM_RETRIES as nat) + " 次重试"@
}

/// The notice of a pending retry, `remaining_secs` before it is made.
pub fn retry_notice(remaining_secs: u64, attempt: u32) -> (s: String)
    ensures
        s@ == retry_text(remaining_secs, attempt),
{
    let mut s = String::from_str("模型请求超时，");
    push_chars(&mut s, &decimal_of_u128(remaining_secs as u128));
    push_str(&mut s, " 秒后进行第 ");
    push_chars(&mut s, &decimal_of_u128(attempt as u128));
    push_str(&mut s, "/");
    push_chars(&mut s, &decimal_of_u128(MAX_LLM_RETRIES as u128));
    push_str(&mut s, " 次重试");
    s
}

/// A question is being answered: the model is asked, an answer is being
/// submitted, or its result is shown. The navigation is hidden meanwhile.
pub open spec fn answering(page: Page, phase: QuizPhase) -> bool {
    page == Page::Quiz && (phase is WaitingLlm || phase is WaitingRetry || phase is Submitting
        || phase is ShowingResult)
}

/// Whether a question is being answered on the page shown.
pub fn is_answering(page: Page, phase: &QuizPhase) -> (b: bool)
    ensures
        b == answering(page, *phase),
{
    page == Page::Quiz && match phase {
        QuizPhase::WaitingLlm | QuizPhase::WaitingRetry { .. } | QuizPhase::Submitting
        | QuizPhase::ShowingResult { .. } => true,
        _ => false,
    }
}

/// The phases in which something is awaited and the window keeps redrawing.
pub open spec fn busy(phase: QuizPhase) -> bool {
    phase is LoggingIn || phase is WaitingScan || phase is CheckingLevel || phase is LevelVerified
        || phase is FetchingQuestion || phase is WaitingLlm || phase is WaitingRetry || phase is Submitting
}

/// Whether something is awaited in `phase`.
pub fn is_busy(phase: &QuizPhase) -> (b: bool)
    ensures
        b == busy(*phase),
{
    match phase {
        QuizPhase::LoggingIn | QuizPhase::WaitingScan { .. } | QuizPhase::CheckingLevel
        | QuizPhase::LevelVerified { .. } | QuizPhase::FetchingQuestion | QuizPhase::WaitingLlm
        | QuizPhase::WaitingRetry { .. } | QuizPhase::Submitting => true,
        _ => false,
    }
}

impl Shell {
    /// Follows the page: once the settings page has closed, the settings
    /// view gives way to the home view.
    pub fn settle(&mut self, page: Page)
        ensures
            final(self).view == (if old(self).view == GuiView::Settings && page == Page::Home {
                GuiView::Home
            } else {
                old(self).view
            }),
            final(self).selected_session == old(self).selected_session,
            final(self).exit_quiz_confirm == old(self).exit_quiz_confirm,
            final(self).logout_confirm == old(self).logout_confirm,
    {
        if self.view == GuiView::Settings && page == Page::Home {
            self.view = GuiView::Home;
        }
    }

    /// Leaves the final result: goes back from the quiz page and shows the
    /// home view, or the details of the newest session.
    pub fn leave_finished(&mut self, app: &mut App, now: i64, show_details: bool) -> (effects: Vec<Effect>)
        ensures
            went_back(*old(app), *final(app), now, effects@),
            *final(self) == (if show_details {
                Shell { view: GuiView::HistoryDetail, selected_session: Some(0usize), ..*old(self) }
            } else {
                Shell { view: GuiView::Home, ..*old(self) }
            }),
    {
        let effects = app.back(now);
        if show_details {
            self.selected_session = Some(0);
            self.view = GuiView::HistoryDetail;
        } else {
            self.view = GuiView::Home;
        }
        effects
    }

    /// Opens the details of the session at `index` of the history.
    pub fn open_session(&mut self, index: usize)
        ensures
            *final(self) == (Shell { view: GuiView::HistoryDetail, selected_session: Some(index), ..*old(self) }),
    {
        self.selected_session = Some(index);
        self.view = GuiView::HistoryDetail;
    }

    /// Returns from the details to the history list.
    pub fn close_session(&mut self)
        ensures
            *final(self) == (Shell { view: GuiView::History, selected_session: None, ..*old(self) }),
    {
        self.selected_session = None;
        self.view = GuiView::History;
    }

    /// The session whose details are shown, among `count` sessions: the
    /// selected one where it exists; otherwise the history list is shown
    /// again (and a selection that no longer exists is dropped).
    pub fn session_to_show(&mut self, count: usize) -> (shown: Option<usize>)
        ensures
            match old(self).selected_session {
                Some(i) if i < count => shown == Some(i) && *final(self) == *old(self),
                Some(_) => shown is None && *final(self) == (Shell { view: GuiView::History, selected_session: None, ..*old(self) }),
                None => shown is None && *final(self) == (Shell { view: GuiView::History, ..*old(self) }),
            },
    {
        match self.selected_session {
            Some(i) => {
                if i < count {
                    Some(i)
                } else {
                    self.selected_session = None;
                    self.view = GuiView::History;
                    None
                }
            },
            None => {
                self.view = GuiView::History;
                None
            },
        }
    }

    /// Confirms leaving the quiz: goes back from the quiz page, closes the
    /// dialog and shows the home view.
    pub fn confirm_exit_quiz(&mut self, app: &mut App, now: i64) -> (effects: Vec<Effect>)
        ensures
            went_back(*old(app), *final(app), now, effects@),
            *final(self) == (Shell { view: GuiView::Home, exit_quiz_confirm: false, ..*old(self) }),
    {
        let effects = app.back(now);
        self.exit_quiz_confirm = false;
        self.view = GuiView::Home;
        effects
    }
}

/// The preset shown as chosen: the first whose endpoint is `base_url`, or
/// the first of all where none is.
pub fn selected_preset(presets: &Vec<PresetTemplate>, base_url: &str) -> (k: usize)
    ensures
        (k < presets@.len() && presets@[k as int].config.base_url@ == base_url@
            && forall|j: int| 0 <= j < k ==> (#[trigger] presets@[j]).config.base_url@ != base_url@)
        || (k == 0 && forall|j: int| 0 <= j < presets@.len() ==> (#[trigger] presets@[j]).config.base_url@ != base_url@),
{
    let mut i: usize = 0;
    while i < presets.len()
        invariant
            i <= presets@.len(),
            forall|j: int| 0 <= j < i ==> (#[trigger] presets@[j]).config.base_url@ != base_url@,
        decreases presets@.len() - i,
    {
        if str_equal(presets[i].config.base_url.as_str(), base_url) {
            return i;
        }
        i = i + 1;
    }
    0
}

/// What each reasoning strength is for.
pub open spec fn effort_hint_text(effort: usize) -> Seq<char> {
    if effort == 0 {
        "较少 Token 消耗，适合简单题目"@
    } else if effort == 1 {
        "平衡准确率与速度"@
    } else {
        "最高准确率，Token 消耗较多"@
    }
}

/// The hint under the reasoning strength control.
pub fn effort_hint(effort: usize) -> (s: &'static str)
    ensures
        s@ == effort_hint_text(effort),
{
    if effort == 0 {
        "较少 Token 消耗，适合简单题目"
    } else if effort == 1 {
        "平衡准确率与速度"
    } else {
        "最高准确率，Token 消耗较多"
    }
}

/// The option chosen for an answered question, where the choice names one.
pub open spec fn chosen_text(item: HistoryItem) -> Option<Seq<char>> {
    if 1 <= item.chosen_idx <= item.options@.len() {
        Some(item.options@[item.chosen_idx - 1]@)
    } else {
        None
    }
}

/// The text of the option chosen for an answered question.
pub fn chosen_option(item: &HistoryItem) -> (o: Option<String>)
    ensures
        match o {
            Some(s) => chosen_text(*item) == Some(s@),
            None => chosen_text(*item) is None,
        },
{
    if item.chosen_idx >= 1 && item.chosen_idx - 1 < item.options.len() {
        Some(item.options[item.chosen_idx - 1].clone())
    } else {
        None
    }
}

/// A category of the captcha form can be clicked while it is selected or
/// fewer than three are.
pub fn category_clickable(selected: bool, selected_count: usize) -> (b: bool)
    ensures
        b == (selected || selected_count < 3),
{
    selected || selected_count < 3
}

} // verus!
