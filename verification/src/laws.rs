//! Properties that hold across calls: what one step undoes of another,
//! and bounds that every step keeps.
use vstd::prelude::*;
use crate::answer::{first_choice, redacted};
use crate::app::{AnswerItem, App, AppEvent, HistoryItem, CaptchaState, CategoryItem, Effect, Page, QuestionHistory, QuizIntent, QuizPhase, SessionStatus};
use crate::events::{handled, on_retry, ticked, MAX_LLM_RETRIES};
use crate::flow::{config_outcome, form_base_url, CONFIG_BAD_SCHEME};
use crate::session::opened_session;
use crate::text::{has_prefix, trim};
use crate::view::{navigated, GuiView, Shell};
use crate::llm::LlmChunk;
use crate::flow::{count_selected, opened, stopped, toggled, went_back, QUIT_MESSAGE, QUIT_STAGE};
use crate::session::{has_number, recorded};

verus! {

/// Changing one category's selection changes the count by one at most, in
/// the direction of the change.
proof fn lemma_count_update(cats: Seq<CategoryItem>, i: int, c: CategoryItem)
    requires
        0 <= i < cats.len(),
    ensures
        count_selected(cats.update(i, c)) == count_selected(cats)
            - (if cats[i].selected { 1int } else { 0 }) + (if c.selected { 1int } else { 0 }),
    decreases cats.len(),
{
    let u = cats.update(i, c);
    if i == cats.len() - 1 {
        assert(u.drop_last() =~= cats.drop_last());
    } else {
        assert(u.drop_last() =~= cats.drop_last().update(i, c));
        lemma_count_update(cats.drop_last(), i, c);
    }
}

/// At most three categories are ever selected: a click keeps a form with
/// at most three selected at most three.
pub proof fn law_selection_stays_within_three(a: CaptchaState, b: CaptchaState, index: usize)
    requires
        toggled(a, b, index),
        count_selected(a.categories@) <= 3,
    ensures
        count_selected(b.categories@) <= 3,
{
    let n = count_selected(a.categories@);
    if index < a.categories@.len() && (a.categories@[index as int].selected || n < 3) {
        let c = a.categories@[index as int];
        lemma_count_update(a.categories@, index as int, CategoryItem { id: c.id, name: c.name, selected: !c.selected });
    }
}

/// Clicking a category twice gives back the selection it had, whenever the
/// first click changed it.
pub proof fn law_toggle_twice_restores(a: CaptchaState, b: CaptchaState, c: CaptchaState, index: usize)
    requires
        toggled(a, b, index),
        toggled(b, c, index),
        index < a.categories@.len(),
        count_selected(a.categories@) <= 3,
        a.categories@[index as int].selected || count_selected(a.categories@) < 3,
    ensures
        c.categories@ == a.categories@,
{
    let x = a.categories@[index as int];
    let flipped = CategoryItem { id: x.id, name: x.name, selected: !x.selected };
    lemma_count_update(a.categories@, index as int, flipped);
    assert(b.categories@[index as int] == flipped);
    assert(b.categories@[index as int].selected || count_selected(b.categories@) < 3);
    assert(c.categories@ == b.categories@.update(index as int, CategoryItem { id: x.id, name: x.name, selected: x.selected }));
    assert(c.categories@ =~= a.categories@);
}

/// Going back after opening a page other than the quiz returns to the page
/// before, with the same back stack, and changes nothing else.
pub proof fn law_back_undoes_go(a: App, b: App, c: App, page: Page, now: i64, e1: Seq<Effect>, e2: Seq<Effect>)
    requires
        opened(a, b, page, e1),
        page != Page::Quiz,
        went_back(b, c, now, e2),
    ensures
        c.page == a.page,
        c.prev_page@ == a.prev_page@,
        c == (App { prev_page: c.prev_page, ..a }),
        e1.len() == 0,
        e2.len() == 0,
{
    assert(b.prev_page@.drop_last() =~= a.prev_page@);
}

/// The question numbers of a session's records are distinct.
pub open spec fn distinct_numbers(qs: Seq<QuestionHistory>) -> bool {
    forall|i: int, j: int| 0 <= i < j < qs.len() ==> qs[i].question_number != qs[j].question_number
}

/// A session never records the same question twice: recording keeps the
/// question numbers distinct.
pub proof fn law_recording_keeps_numbers_distinct(s: crate::app::SessionHistory, b: crate::app::SessionHistory, a: App, correct: bool, now: i64)
    requires
        recorded(s, b, a, correct, now),
        distinct_numbers(b.questions@),
    ensures
        distinct_numbers(s.questions@),
{
    if !has_number(b.questions@, a.question_num) {
        let qs = s.questions@;
        assert forall|i: int, j: int| 0 <= i < j < qs.len() implies qs[i].question_number != qs[j].question_number by {
            if j == qs.len() - 1 {
                assert(qs[i] == b.questions@[i]);
                assert(!(0 <= i < b.questions@.len() && b.questions@[i].question_number == a.question_num));
            } else {
                assert(qs[i] == b.questions@[i]);
                assert(qs[j] == b.questions@[j]);
            }
        }
    }
}

/// A kept error message is never longer than 240 characters.
pub proof fn law_redacted_is_short(message: Seq<char>)
    ensures
        redacted(message).len() <= 240,
{
    reveal_strlit("请求失败，敏感信息已隐藏");
}

/// After three retries the next unreadable answer ends the run with an
/// error instead of another retry.
pub proof fn law_retries_are_bounded(a: App, b: App, reason: Seq<char>, effects: Seq<Effect>)
    requires
        a.wf(),
        a.llm_retries == MAX_LLM_RETRIES,
        on_retry(a, b, reason, effects),
    ensures
        b.phase is Error,
        effects.len() == 0,
{
}

/// A run that only logs in never asks for a question: when the level check
/// of such a run has passed, the clock leaves the verified level without
/// fetching one, and once the countdown ends it goes back to the page
/// before the quiz.
pub proof fn law_login_only_fetches_no_question(a: App, b: App, now: i64, effects: Seq<Effect>)
    requires
        a.quiz_intent == QuizIntent::LoginOnly,
        a.phase is LevelVerified,
        ticked(a, b, now, false, effects),
    ensures
        !effects.contains(Effect::FetchQuestion),
        a.phase matches QuizPhase::LevelVerified { countdown, .. } && countdown <= 1 && a.prev_page@.len() > 0
            ==> b.page == a.prev_page@.last(),
{
    let s = App { spinner: ((a.spinner + 1) % 10) as usize, ..a };
    assert(s.phase == a.phase);
    match a.phase {
        QuizPhase::LevelVerified { level, countdown } => {
            if effects.contains(Effect::FetchQuestion) {
                let i = choose|i: int| 0 <= i < effects.len() && effects[i] == Effect::FetchQuestion;
                if countdown > 1 {
                    assert(effects.len() == 0);
                } else if s.page == Page::Quiz {
                    let m = App { page: b.page, prev_page: b.prev_page, ..App { phase: QuizPhase::NotConfigured, ..s } };
                    assert(stopped(m, b, QUIT_MESSAGE@, QUIT_STAGE@, now, effects));
                    if i == effects.len() - 1 {
                        assert(effects.last() == Effect::CancelQuizWork);
                    } else {
                        assert(effects.drop_last()[i] == effects[i]);
                    }
                } else {
                    assert(effects.len() == 0);
                }
            }
        },
        _ => {},
    }
}

/// Leaving the quiz page cancels all of its background work: the last
/// effect of going back from it is the cancellation.
pub proof fn law_leaving_quiz_cancels_work(a: App, b: App, now: i64, effects: Seq<Effect>)
    requires
        a.page == Page::Quiz,
        went_back(a, b, now, effects),
    ensures
        effects.len() >= 1,
        effects.last() == Effect::CancelQuizWork,
{
}

/// Leaving the quiz after answering keeps the run: a session with answered
/// questions is stored as interrupted, at the stage `quiz_exit` with the
/// message that the user left, and its answers are kept.
pub proof fn law_leaving_quiz_keeps_the_run(a: App, b: App, now: i64, effects: Seq<Effect>)
    requires
        a.page == Page::Quiz,
        a.active_session matches Some(s) && s.completed_questions > 0,
        went_back(a, b, now, effects),
    ensures
        b.active_session is None,
        b.sessions@.len() == a.sessions@.len() + 1,
        b.sessions@.skip(1) == a.sessions@,
        b.sessions@[0].status == SessionStatus::Interrupted,
        b.sessions@[0].failure_stage matches Some(st) && st@ == QUIT_STAGE@,
        b.sessions@[0].failure_message matches Some(m) && m@ == redacted(QUIT_MESSAGE@),
        b.sessions@[0].questions == a.active_session->0.questions,
        b.sessions@[0].score == a.active_session->0.score,
        effects == seq![Effect::SaveSessions, Effect::CancelQuizWork],
{
    let m = App { page: b.page, prev_page: b.prev_page, ..a };
    assert(stopped(m, b, QUIT_MESSAGE@, QUIT_STAGE@, now, effects));
    assert(effects =~= effects.drop_last().push(effects.last()));
}

/// The option that the model's finished reply names is the one submitted:
/// where the first digit from 1 to 4 in the reply (what `parse_answer`
/// reads) is the number of an option, that option's hash and text are sent
/// for the current question, and the state waits for the submission.
pub proof fn law_the_named_option_is_submitted(a: App, b: App, full: String, n: usize, now: i64, effects: Seq<Effect>)
    requires
        handled(a, b, AppEvent::LlmChunk(LlmChunk::Done(full)), now, effects),
        first_choice(full@) == Some(n),
        1 <= n <= a.answers@.len(),
    ensures
        b.chosen_answer_idx == n,
        b.phase is Submitting,
        effects.len() == 1,
        effects[0] matches Effect::SubmitAnswer { question_id, hash, text }
            && question_id == a.question_id
            && hash@ == a.answers@[n - 1].hash@
            && text@ == a.answers@[n - 1].text@,
{
}

/// Every question starts with the whole retry budget: once a question has
/// arrived on the quiz page no retry has been spent on it, so the first
/// unreadable reply to it is retried as attempt 1 after two seconds,
/// whatever the previous question used.
pub proof fn law_each_question_gets_all_retries(
    a: App,
    b: App,
    c: App,
    num: u32,
    question: String,
    answers: Vec<AnswerItem>,
    id: i64,
    reason: String,
    now: i64,
    e1: Seq<Effect>,
    e2: Seq<Effect>,
)
    requires
        handled(a, b, AppEvent::QuestionReady { num, question, answers, id }, now, e1),
        handled(b, c, AppEvent::LlmRetry { reason }, now, e2),
    ensures
        b.llm_retries == 0,
        b.phase is WaitingLlm,
        c.llm_retries == 1,
        c.phase == (QuizPhase::WaitingRetry { attempt: 1, delay_secs: 2 }),
        e2 == seq![Effect::ScheduleLlmRetry { secs: 2 }],
{
    assert((2u64 << 0u64) == 2u64) by (bit_vector);
}

/// When the shown result of an answer runs out, the answer is kept as it
/// was judged: the history gains one item for the current question with the
/// judged correctness, and the session holds a record of the question. An
/// open session without a record of that question gains one with the same
/// correctness; a session opened at this point takes over the whole
/// history, this answer last.
pub proof fn law_finished_answer_keeps_its_result(a: App, b: App, correct: bool, countdown: u8, now: i64, effects: Seq<Effect>)
    requires
        a.phase == (QuizPhase::ShowingResult { correct, countdown }),
        countdown <= 1,
        ticked(a, b, now, false, effects),
    ensures
        b.history@.len() == a.history@.len() + 1,
        b.history@.drop_last() == a.history@,
        b.history@.last().num == a.question_num,
        b.history@.last().correct == correct,
        b.history@.last().chosen_idx == a.chosen_answer_idx,
        b.active_session matches Some(s) && {
            &&& exists|i: int| 0 <= i < s.questions@.len() && (#[trigger] s.questions@[i]).question_number == a.question_num
            &&& (a.active_session matches Some(o) && !has_number(o.questions@, a.question_num))
                ==> s.questions@.last().question_number == a.question_num && s.questions@.last().correct == correct
            &&& a.active_session is None ==> {
                &&& s.questions@.len() == a.history@.len() + 1
                &&& s.questions@.last().question_number == a.question_num
                &&& s.questions@.last().correct == correct
            }
        },
{
    let s0 = App { spinner: ((a.spinner + 1) % 10) as usize, ..a };
    let m = App { history: b.history, ..s0 };
    let s = b.active_session->0;
    match a.active_session {
        Some(o) => {
            assert(crate::session::recorded(s, o, m, correct, now));
            if has_number(o.questions@, a.question_num) {
                let i = choose|i: int| 0 <= i < o.questions@.len() && (#[trigger] o.questions@[i]).question_number == a.question_num;
                assert(s.questions@[i] == o.questions@[i]);
            } else {
                assert(s.questions@[s.questions@.len() - 1] == s.questions@.last());
            }
        },
        None => {
            let o = choose|o: crate::app::SessionHistory| crate::session::new_session(o, m, now) && crate::session::recorded(s, o, m, correct, now);
            let k = a.history@.len() as int;
            assert(crate::app::records(o.questions@[k], b.history@[k]));
            assert(b.history@[k] == b.history@.last());
            assert(has_number(o.questions@, a.question_num));
            assert(s.questions@ == o.questions@);
            assert(s.questions@[k] == s.questions@.last());
        },
    }
}

/// A session opened for a run takes over the questions already answered in
/// it: one record per history item, in order, with the item's number,
/// question, choice and correctness, and as many completed questions as
/// the history holds.
pub proof fn law_new_session_takes_over_the_history(a: App, b: App, now: i64)
    requires
        a.active_session is None,
        opened_session(a, b, now),
    ensures
        b.active_session matches Some(s) && {
            &&& s.questions@.len() == a.history@.len()
            &&& s.completed_questions == a.history@.len() as u32
            &&& forall|i: int| 0 <= i < a.history@.len() ==> {
                let q = #[trigger] s.questions@[i];
                let h = a.history@[i];
                &&& q.question_number == h.num
                &&& q.question@ == h.question@
                &&& q.chosen_index == h.chosen_idx
                &&& q.correct == h.correct
                &&& q.correct_index == h.correct_idx
            }
        },
        b.history == a.history,
{
}

/// A filled-in settings form whose endpoint starts with `http://` or
/// `https://` is accepted with the trimmed values; the scheme error comes
/// only for an endpoint that has neither prefix.
pub proof fn law_http_and_https_endpoints_are_accepted(a: App, r: Result<crate::config::OpenAiConfig, String>)
    requires
        config_outcome(a, r),
    ensures
        (form_base_url(a).len() > 0 && trim(a.cfg_fields@[1]@).len() > 0 && trim(a.cfg_fields@[2]@).len() > 0
            && (has_prefix(form_base_url(a), "http://"@) || has_prefix(form_base_url(a), "https://"@)))
            ==> (r matches Ok(c) && c.base_url@ == form_base_url(a) && c.model@ == trim(a.cfg_fields@[1]@)
                && c.api_key@ == trim(a.cfg_fields@[2]@)),
        (r matches Err(e) && e@ == CONFIG_BAD_SCHEME@)
            ==> !has_prefix(form_base_url(a), "http://"@) && !has_prefix(form_base_url(a), "https://"@),
{
    reveal_strlit("API URL 必须以 http:// 或 https:// 开头");
    reveal_strlit("请完整填写 API URL、模型名称和 API Key");
    assert(crate::flow::CONFIG_INCOMPLETE@[0] != CONFIG_BAD_SCHEME@[0]);
    assert(crate::flow::CONFIG_INCOMPLETE@ != CONFIG_BAD_SCHEME@);
}

/// Navigating to any view but the settings ends on the home page, showing
/// that view, whichever page was open before.
pub proof fn law_navigation_off_settings_shows_home(s0: Shell, a: App, s1: Shell, b: App, view: GuiView, now: i64, effects: Seq<Effect>)
    requires
        navigated(s0, a, s1, b, view, now, effects),
        view != GuiView::Settings,
    ensures
        b.page == Page::Home,
        s1.view == view,
{
}

} // verus!
