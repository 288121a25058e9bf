//! How the state answers the reports of the background work, and what it
//! does on each tick of the clock (about ten a second).
use vstd::prelude::*;
use crate::answer::{first_choice, parse_answer};
use crate::app::{
    AppEvent, answer_texts, copy_strings, option_texts, App, CaptchaFocus, CaptchaPreserve, CaptchaState,
    CategoryItem, Effect, HistoryItem, Page, QuizIntent, QuizPhase,
};
use crate::config::texts;
use crate::flow::{single, went_back};
use crate::llm::{question_for_model, question_text_for_model, LlmChunk};
use crate::session::{finished_in, interrupted_in, opened_session, recorded_in};
use crate::text::{decimal, push_chars, push_str};

verus! {

/// How many times a question is asked again after an unreadable answer.
pub const MAX_LLM_RETRIES: u32 = 3;

/// The countdown of a passed level check, in ticks.
pub const LEVEL_COUNTDOWN: u8 = 8;

/// The seconds a login QR code stays valid.
pub const QR_COUNTDOWN: u32 = 60;

/// Ticks between two polls of the login QR code.
pub const QR_POLL_TICKS: u32 = 10;

/// The number of questions of a quiz.
pub const QUESTION_COUNT: u32 = 100;

/// The countdown after an answer, in ticks, in normal and in fast mode.
pub const RESULT_COUNTDOWN: u8 = 10;

/// The countdown after an answer, in ticks, in fast mode.
pub const RESULT_COUNTDOWN_FAST: u8 = 1;

/// The seconds before the `attempt`-th retry: 2, 4, 8, ...
pub open spec fn retry_delay(attempt: u32) -> u64 {
    (2u64 << ((attempt - 1) as u64)) as u64
}

/// The effects that ask the model about the current question of `a`: none
/// without a model configuration.
pub open spec fn asked(a: App, effects: Seq<Effect>) -> bool {
    match a.config {
        None => effects.len() == 0,
        Some(c) => {
            &&& effects.len() == 1
            &&& effects[0] matches Effect::AskLlm { config, question, categories } && {
                &&& config == c
                &&& question@ == question_text_for_model(a.question_text@, option_texts(a.answers@))
                &&& texts(categories@) == texts(a.selected_categories@)
            }
        },
    }
}

/// The effects that submit option `idx` (counted from 1) of the current
/// question of `a`: none where there is no such option.
pub open spec fn submitted(a: App, idx: usize, effects: Seq<Effect>) -> bool {
    if idx == 0 || idx > a.answers@.len() {
        effects.len() == 0
    } else {
        &&& effects.len() == 1
        &&& effects[0] matches Effect::SubmitAnswer { question_id, hash, text } && {
            &&& question_id == a.question_id
            &&& hash@ == a.answers@[idx - 1].hash@
            &&& text@ == a.answers@[idx - 1].text@
        }
    }
}

/// `h` is the current question of `a`, answered `correct`ly.
pub open spec fn item_current(h: HistoryItem, a: App, correct: bool) -> bool {
    &&& h.num == a.question_num
    &&& h.question@ == a.question_text@
    &&& texts(h.options@) == option_texts(a.answers@)
    &&& h.chosen_idx == a.chosen_answer_idx
    &&& h.correct == correct
    &&& h.correct_idx is None
}

/// The number of correctly answered questions.
pub open spec fn count_correct(h: Seq<HistoryItem>) -> nat
    decreases h.len(),
{
    if h.len() == 0 {
        0
    } else {
        count_correct(h.drop_last()) + (if h.last().correct { 1nat } else { 0 })
    }
}

/// The message when a reply names no option.
pub const UNREADABLE_REPLY: &'static str = "AI 回复无法解析: ";

/// Before the message of a failed model request.
pub const LLM_FAILED_PREFIX: &'static str = "AI 请求失败: ";

/// After the message of a failed model request.
pub const LLM_FAILED_SUFFIX: &'static str = "（为避免重复计费，未自动重试）";

/// Before the reason when the retries are used up.
pub const RETRIES_EXHAUSTED_PREFIX: &'static str = "AI 回答错误: ";

/// The message when the captcha was wrong.
pub const CAPTCHA_WRONG: &'static str = "验证码错误，请重新输入";

/// The stage recorded when submitting an answer failed.
pub const STAGE_SUBMIT: &'static str = "answer_submit";

/// The stage recorded when a background step failed.
pub const STAGE_WORKFLOW: &'static str = "workflow";

/// The error shown when the retries are used up, for `reason`.
pub open spec fn exhausted_message(reason: Seq<char>) -> Seq<char> {
    RETRIES_EXHAUSTED_PREFIX@ + reason + "（已重试 "@ + decimal(3) + " 次）"@
}

/// The chunk of the model's reply handled in `a`.
pub open spec fn on_chunk(a: App, b: App, chunk: LlmChunk, effects: Seq<Effect>) -> bool {
    match chunk {
        LlmChunk::Thinking(t) => {
            &&& b == App { thinking_text: b.thinking_text, ..a }
            &&& b.thinking_text@ == a.thinking_text@ + t@
            &&& effects.len() == 0
        },
        LlmChunk::Content(t) => {
            &&& b == App { answer_text: b.answer_text, ..a }
            &&& b.answer_text@ == a.answer_text@ + t@
            &&& effects.len() == 0
        },
        LlmChunk::Done(full) => match first_choice(full@) {
            Some(idx) => {
                &&& b == App { chosen_answer_idx: idx, phase: QuizPhase::Submitting, ..a }
                &&& submitted(a, idx, effects)
            },
            None => {
                &&& b == a
                &&& effects.len() == 1
                &&& effects[0] matches Effect::QueueLlmRetry { reason } && reason@ == UNREADABLE_REPLY@ + full@
            },
        },
        LlmChunk::Error(msg) => {
            &&& b == App { phase: b.phase, ..a }
            &&& b.phase matches QuizPhase::Error(e) && e@ == LLM_FAILED_PREFIX@ + msg@ + LLM_FAILED_SUFFIX@
            &&& effects.len() == 0
        },
    }
}

/// The request to retry handled in `a`.
pub open spec fn on_retry(a: App, b: App, reason: Seq<char>, effects: Seq<Effect>) -> bool {
    let attempt = a.llm_retries + 1;
    if attempt > MAX_LLM_RETRIES {
        &&& b == App { phase: b.phase, ..a }
        &&& b.phase matches QuizPhase::Error(e) && e@ == exhausted_message(reason)
        &&& effects.len() == 0
    } else {
        let secs = retry_delay(attempt as u32);
        &&& b == (App {
            llm_retries: attempt as u32,
            thinking_text: b.thinking_text,
            answer_text: b.answer_text,
            phase: QuizPhase::WaitingRetry { attempt: attempt as u32, delay_secs: secs },
            ..a
        })
        &&& b.thinking_text@.len() == 0 && b.answer_text@.len() == 0
        &&& effects == seq![Effect::ScheduleLlmRetry { secs: secs }]
    }
}

/// The selection flag of the `i`-th category of a new captcha: as it was
/// before the refresh, and unselected where it was not there.
pub open spec fn kept_flag(flags: Seq<bool>, i: int) -> bool {
    if 0 <= i < flags.len() {
        flags[i]
    } else {
        false
    }
}

/// `st` is the captcha form for the new captcha data, restored from `p`
/// (or fresh where `p` is `None`), with the pending error.
pub open spec fn captcha_form(st: CaptchaState, cats: Seq<CategoryItem>, url: Seq<char>, token: Seq<char>, p: Option<CaptchaPreserve>, error: Option<String>) -> bool {
    &&& st.categories@.len() == cats.len()
    &&& forall|i: int| 0 <= i < cats.len() ==> #[trigger] st.categories@[i] == (CategoryItem {
        selected: kept_flag(match p { Some(x) => x.0@, None => Seq::empty() }, i),
        ..cats[i]
    })
    &&& st.captcha_url@ == url
    &&& st.captcha_token@ == token
    &&& match p {
        Some(x) => st.cat_focus == x.1 && st.focus == x.2 && st.input@ == x.3@,
        None => st.cat_focus == 0 && st.focus == CaptchaFocus::Categories && st.input@.len() == 0,
    }
    &&& st.error@ == (match error { Some(e) => e@, None => Seq::empty() })
}

/// `b` and `effects` are `a` after handling `ev` on the quiz page at `now`.
pub open spec fn handled(a: App, b: App, ev: AppEvent, now: i64, effects: Seq<Effect>) -> bool {
    match ev {
        AppEvent::TicketReady(t) => b == a && effects == seq![Effect::SetClientTicket(t)],
        AppEvent::QrReady { url, qr, auth_code } => {
            &&& b == (App {
                qr_auth_code: Some(auth_code),
                qr_poll_tick: 0,
                phase: QuizPhase::WaitingScan { url, qr, auth_code, countdown: QR_COUNTDOWN },
                ..a
            })
            &&& effects.len() == 0
        },
        AppEvent::LoginOk(auth) => {
            &&& b == (App { auth: Some(auth), qr_auth_code: None, phase: QuizPhase::CheckingLevel, ..a })
            &&& effects == seq![Effect::SetClientAuth(auth), Effect::CheckLevel]
        },
        AppEvent::LoginPending => b == a && effects.len() == 0,
        AppEvent::LevelOk(level) => {
            b == (App { phase: QuizPhase::LevelVerified { level, countdown: LEVEL_COUNTDOWN }, ..a }) && effects.len() == 0
        },
        AppEvent::LevelFail(level) => {
            b == (App { phase: QuizPhase::LevelInsufficient { level }, ..a }) && effects.len() == 0
        },
        AppEvent::LevelCheckFailed(m) => {
            b == (App { phase: QuizPhase::LevelCheckFailed(m), ..a }) && effects.len() == 0
        },
        AppEvent::QuestionReady { num, question, answers, id } => {
            let m = App { question_num: num, question_text: question, answers, question_id: id, ..a };
            &&& opened_session(m, App { active_session: b.active_session, ..m }, now)
            &&& b == (App {
                active_session: b.active_session,
                thinking_text: b.thinking_text,
                answer_text: b.answer_text,
                llm_retries: 0,
                phase: QuizPhase::WaitingLlm,
                ..m
            })
            &&& b.thinking_text@.len() == 0 && b.answer_text@.len() == 0
            &&& asked(b, effects)
        },
        AppEvent::NeedCaptcha => {
            &&& b == (App { history: b.history, phase: QuizPhase::FetchingQuestion, ..a })
            &&& if a.history@.len() > 0 {
                b.history@.len() == 0 && effects == seq![Effect::SaveHistory, Effect::FetchCaptcha]
            } else {
                b.history == a.history && effects == seq![Effect::FetchCaptcha]
            }
        },
        AppEvent::CaptchaData { categories, url, token, image_bytes } => {
            &&& b == (App { captcha_preserve: None, captcha_error: None, phase: b.phase, ..a })
            &&& b.phase matches QuizPhase::Captcha(st) && captcha_form(st, categories@, url@, token@, a.captcha_preserve, a.captcha_error)
            &&& effects == seq![Effect::ShowCaptchaImage(image_bytes)]
        },
        AppEvent::CaptchaRejected => {
            &&& b == (App { captcha_preserve: b.captcha_preserve, captcha_error: b.captcha_error, phase: QuizPhase::FetchingQuestion, ..a })
            &&& b.captcha_error matches Some(e) && e@ == CAPTCHA_WRONG@
            &&& match a.captcha_preserve {
                None => b.captcha_preserve is None,
                Some(p) => b.captcha_preserve matches Some(q) && q.0 == p.0 && q.1 == p.1 && q.2 == p.2 && q.3@.len() == 0,
            }
            &&& effects == seq![Effect::FetchCaptcha]
        },
        AppEvent::LlmChunk(chunk) => on_chunk(a, b, chunk, effects),
        AppEvent::LlmRetry { reason } => on_retry(a, b, reason@, effects),
        AppEvent::LlmRetryFire => {
            if a.phase is WaitingRetry {
                b == (App { phase: QuizPhase::WaitingLlm, ..a }) && asked(a, effects)
            } else {
                b == a && effects.len() == 0
            }
        },
        AppEvent::SubmitOk { score } => {
            &&& b == (App {
                score,
                phase: QuizPhase::ShowingResult {
                    correct: score > a.score,
                    countdown: if a.cfg_fast_mode { RESULT_COUNTDOWN_FAST } else { RESULT_COUNTDOWN },
                },
                ..a
            })
            &&& effects.len() == 0
        },
        AppEvent::SubmitFail(msg) => {
            &&& interrupted_in(a, App { phase: a.phase, ..b }, msg@, STAGE_SUBMIT@, now, effects)
            &&& b.phase matches QuizPhase::Error(e) && e@ == msg@
        },
        AppEvent::QuizDone { score, scores } => {
            &&& finished_in(a, App { phase: a.phase, ..b }, score, scores@, now)
            &&& b.phase matches QuizPhase::Finished { score: s, scores: sc } && s == score && sc@ == scores@
            &&& effects == seq![Effect::SaveSessions]
        },
        AppEvent::Fail(msg) => {
            &&& interrupted_in(a, App { phase: a.phase, ..b }, msg@, STAGE_WORKFLOW@, now, effects)
            &&& b.phase matches QuizPhase::Error(e) && e@ == msg@
        },
    }
}

/// `b` and `effects` are `a` after one tick at `now`. Nothing but the
/// spinner moves while the quiz work is cancelled.
pub open spec fn ticked(a: App, b: App, now: i64, cancelled: bool, effects: Seq<Effect>) -> bool {
    let s = App { spinner: ((a.spinner + 1) % 10) as usize, ..a };
    if cancelled {
        b == s && effects.len() == 0
    } else {
        advanced(s, b, now, effects)
    }
}

/// `b` and `effects` are `a` after the countdowns of one tick.
pub open spec fn advanced(a: App, b: App, now: i64, effects: Seq<Effect>) -> bool {
    match a.phase {
        QuizPhase::ShowingResult { correct, countdown } => if countdown > 1 {
            &&& b == (App { phase: QuizPhase::ShowingResult { correct, countdown: (countdown - 1) as u8 }, ..a })
            &&& effects.len() == 0
        } else {
            question_finished(a, b, correct, now, effects)
        },
        QuizPhase::LevelVerified { level, countdown } => if countdown > 1 {
            &&& b == (App { phase: QuizPhase::LevelVerified { level, countdown: (countdown - 1) as u8 }, ..a })
            &&& effects.len() == 0
        } else if a.quiz_intent == QuizIntent::LoginOnly {
            went_back(App { phase: QuizPhase::NotConfigured, ..a }, b, now, effects)
        } else {
            &&& b == (App { score: count_correct(a.history@) as i64, phase: QuizPhase::FetchingQuestion, ..a })
            &&& effects == seq![Effect::FetchQuestion]
        },
        QuizPhase::WaitingScan { url, qr, auth_code, countdown } => if countdown > 0 {
            let t = a.qr_poll_tick + 1;
            if t >= QR_POLL_TICKS {
                &&& b == (App {
                    qr_poll_tick: 0,
                    phase: QuizPhase::WaitingScan { url, qr, auth_code, countdown: (countdown - 1) as u32 },
                    ..a
                })
                &&& effects.len() == 1
                &&& effects[0] matches Effect::PollQr(code) && code@ == auth_code@
            } else {
                b == (App { qr_poll_tick: t as u32, ..a }) && effects.len() == 0
            }
        } else {
            b == (App { phase: QuizPhase::LoginTimeout { retry: true }, ..a }) && effects.len() == 0
        },
        _ => b == a && effects.len() == 0,
    }
}

/// `b` and `effects` are `a` after the answer's result was shown: the
/// question is added to the history and to the session, and the next
/// question (or, after the last, the final result) is fetched.
pub open spec fn question_finished(a: App, b: App, correct: bool, now: i64, effects: Seq<Effect>) -> bool {
    let m = App { history: b.history, ..a };
    &&& b.history@.len() == a.history@.len() + 1
    &&& b.history@.drop_last() == a.history@
    &&& item_current(b.history@.last(), a, correct)
    &&& recorded_in(m, App { phase: m.phase, ..b }, correct, now)
    &&& if a.question_num < QUESTION_COUNT {
        b.phase is FetchingQuestion && effects == seq![Effect::SaveHistory, Effect::FetchQuestion]
    } else {
        b.phase is Submitting && effects == seq![Effect::SaveHistory, Effect::FetchFinalResult]
    }
}

/// The number of correctly answered questions.
pub fn count_correct_exec(h: &Vec<HistoryItem>) -> (n: usize)
    ensures
        n == count_correct(h@),
{
    let mut n: usize = 0;
    let mut i: usize = 0;
    while i < h.len()
        invariant
            i <= h@.len(),
            n == count_correct(h@.take(i as int)),
            n <= i,
        decreases h@.len() - i,
    {
        proof {
            assert(h@.take(i + 1).drop_last() =~= h@.take(i as int));
        }
        if h[i].correct {
            n = n + 1;
        }
        i = i + 1;
    }
    proof {
        assert(h@.take(h@.len() as int) =~= h@);
    }
    n
}

impl App {
    /// Asks the model about the current question, when a model is configured.
    pub fn spawn_llm(&self) -> (effects: Vec<Effect>)
        ensures
            asked(*self, effects@),
    {
        match &self.config {
            Some(cfg) => {
                let options = answer_texts(&self.answers);
                let question = question_for_model(self.question_text.as_str(), &options);
                single(Effect::AskLlm { config: cfg.duplicate(), question, categories: copy_strings(&self.selected_categories) })
            },
            None => Vec::new(),
        }
    }

    /// Submits option `ans_idx` (counted from 1), when there is such an option.
    pub fn spawn_submit(&self, ans_idx: usize) -> (effects: Vec<Effect>)
        ensures
            submitted(*self, ans_idx, effects@),
    {
        if ans_idx == 0 || ans_idx > self.answers.len() {
            return Vec::new();
        }
        let ans = &self.answers[ans_idx - 1];
        single(Effect::SubmitAnswer { question_id: self.question_id, hash: ans.hash.clone(), text: ans.text.clone() })
    }

    /// Fetches the next question.
    pub fn spawn_fetch_question(&self) -> (effects: Vec<Effect>)
        ensures
            effects@ == seq![Effect::FetchQuestion],
    {
        single(Effect::FetchQuestion)
    }

    /// Fetches the categories and a captcha.
    pub fn spawn_fetch_captcha(&self) -> (effects: Vec<Effect>)
        ensures
            effects@ == seq![Effect::FetchCaptcha],
    {
        single(Effect::FetchCaptcha)
    }

    /// Submits the captcha `code` with its `token` and the chosen category ids.
    pub fn spawn_captcha_submit(&self, code: &str, token: &str, ids: &str) -> (effects: Vec<Effect>)
        ensures
            effects@.len() == 1,
            effects@[0] matches Effect::SubmitCaptcha { code: c, token: t, ids: i } && c@ == code@ && t@ == token@ && i@ == ids@,
    {
        single(Effect::SubmitCaptcha { code: String::from_str(code), token: String::from_str(token), ids: String::from_str(ids) })
    }

    fn on_question_ready(&mut self, num: u32, question: String, answers: Vec<crate::app::AnswerItem>, id: i64, now: i64) -> (effects: Vec<Effect>)
        requires
            old(self).wf(),
        ensures
            final(self).wf(),
            handled(*old(self), *final(self), AppEvent::QuestionReady { num, question, answers, id }, now, effects@),
    {
        self.question_num = num;
        self.question_text = question;
        self.answers = answers;
        self.question_id = id;
        self.ensure_active_session(now);
        self.thinking_text = String::new();
        self.answer_text = String::new();
        self.llm_retries = 0;
        let effects = self.spawn_llm();
        self.phase = QuizPhase::WaitingLlm;
        effects
    }

    fn on_captcha_data(&mut self, categories: Vec<CategoryItem>, url: String, token: String, image_bytes: Option<Vec<u8>>) -> (effects: Vec<Effect>)
        ensures
            handled(*old(self), *final(self), AppEvent::CaptchaData { categories, url, token, image_bytes }, 0, effects@),
    {
        let ghost a = *old(self);
        let preserved = self.captcha_preserve.take();
        let pending = self.captcha_error.take();
        let (selected, cat_focus, focus, input) = match preserved {
            Some(p) => p,
            None => (Vec::new(), 0, CaptchaFocus::Categories, String::new()),
        };
        let ghost flags = selected@;
        let mut items: Vec<CategoryItem> = Vec::new();
        let mut i: usize = 0;
        while i < categories.len()
            invariant
                i <= categories@.len(),
                flags == selected@,
                items@.len() == i,
                forall|j: int| 0 <= j < i ==> #[trigger] items@[j] == (CategoryItem { selected: kept_flag(flags, j), ..categories@[j] }),
            decreases categories@.len() - i,
        {
            let c = &categories[i];
            let flag = if i < selected.len() { selected[i] } else { false };
            items.push(CategoryItem { id: c.id, name: c.name.clone(), selected: flag });
            i = i + 1;
        }
        let error = match pending {
            Some(e) => e,
            None => String::new(),
        };
        self.phase = QuizPhase::Captcha(CaptchaState {
            categories: items,
            cat_focus,
            captcha_url: url,
            captcha_token: token,
            input,
            focus,
            error,
        });
        single(Effect::ShowCaptchaImage(image_bytes))
    }

    fn on_chunk(&mut self, chunk: LlmChunk) -> (effects: Vec<Effect>)
        ensures
            on_chunk(*old(self), *final(self), chunk, effects@),
    {
        match chunk {
            LlmChunk::Thinking(text) => {
                push_str(&mut self.thinking_text, text.as_str());
                Vec::new()
            },
            LlmChunk::Content(text) => {
                push_str(&mut self.answer_text, text.as_str());
                Vec::new()
            },
            LlmChunk::Done(full_text) => match parse_answer(full_text.as_str()) {
                Some(idx) => {
                    self.chosen_answer_idx = idx;
                    self.phase = QuizPhase::Submitting;
                    self.spawn_submit(idx)
                },
                None => {
                    let mut reason = String::from_str(UNREADABLE_REPLY);
                    push_str(&mut reason, full_text.as_str());
                    single(Effect::QueueLlmRetry { reason })
                },
            },
            LlmChunk::Error(msg) => {
                let mut text = String::from_str(LLM_FAILED_PREFIX);
                push_str(&mut text, msg.as_str());
                push_str(&mut text, LLM_FAILED_SUFFIX);
                self.phase = QuizPhase::Error(text);
                Vec::new()
            },
        }
    }

    fn on_retry(&mut self, reason: String) -> (effects: Vec<Effect>)
        requires
            old(self).wf(),
        ensures
            final(self).wf(),
            on_retry(*old(self), *final(self), reason@, effects@),
    {
        let attempt = self.llm_retries + 1;
        if attempt > MAX_LLM_RETRIES {
            let mut text = String::from_str(RETRIES_EXHAUSTED_PREFIX);
            push_str(&mut text, reason.as_str());
            push_str(&mut text, "（已重试 ");
            push_chars(&mut text, &crate::text::decimal_of_u128(MAX_LLM_RETRIES as u128));
            push_str(&mut text, " 次）");
            self.phase = QuizPhase::Error(text);
            Vec::new()
        } else {
            self.llm_retries = attempt;
            let secs: u64 = 2u64 << ((attempt - 1) as u64);
            self.thinking_text = String::new();
            self.answer_text = String::new();
            self.phase = QuizPhase::WaitingRetry { attempt, delay_secs: secs };
            single(Effect::ScheduleLlmRetry { secs })
        }
    }

    fn on_simple(&mut self, ev: AppEvent) -> (effects: Vec<Effect>)
        requires
            old(self).wf(),
            !(ev is QuestionReady || ev is CaptchaData || ev is LlmChunk || ev is LlmRetry || ev is SubmitFail || ev is QuizDone || ev is Fail),
        ensures
            final(self).wf(),
            handled(*old(self), *final(self), ev, 0, effects@),
    {
        match ev {
            AppEvent::TicketReady(ticket) => {
                let effects = single(Effect::SetClientTicket(ticket));
                effects
            },
            AppEvent::QrReady { url, qr, auth_code } => {
                self.qr_auth_code = Some(auth_code.clone());
                self.qr_poll_tick = 0;
                self.phase = QuizPhase::WaitingScan { url, qr, auth_code, countdown: QR_COUNTDOWN };
                Vec::new()
            },
            AppEvent::LoginOk(auth) => {
                self.auth = Some(auth.duplicate());
                let mut effects = single(Effect::SetClientAuth(auth));
                self.qr_auth_code = None;
                self.phase = QuizPhase::CheckingLevel;
                effects.push(Effect::CheckLevel);
                proof {
                    assert(effects@ =~= seq![Effect::SetClientAuth(auth), Effect::CheckLevel]);
                }
                effects
            },
            AppEvent::LoginPending => Vec::new(),
            AppEvent::LevelOk(level) => {
                self.phase = QuizPhase::LevelVerified { level, countdown: LEVEL_COUNTDOWN };
                Vec::new()
            },
            AppEvent::LevelFail(level) => {
                self.phase = QuizPhase::LevelInsufficient { level };
                Vec::new()
            },
            AppEvent::LevelCheckFailed(message) => {
                self.phase = QuizPhase::LevelCheckFailed(message);
                Vec::new()
            },
            AppEvent::NeedCaptcha => {
                let mut effects: Vec<Effect> = Vec::new();
                if self.history.len() > 0 {
                    self.history = Vec::new();
                    effects.push(Effect::SaveHistory);
                }
                self.phase = QuizPhase::FetchingQuestion;
                effects.push(Effect::FetchCaptcha);
                proof {
                    if old(self).history@.len() > 0 {
                        assert(effects@ =~= seq![Effect::SaveHistory, Effect::FetchCaptcha]);
                    } else {
                        assert(effects@ =~= seq![Effect::FetchCaptcha]);
                    }
                }
                effects
            },
            AppEvent::CaptchaRejected => {
                let preserved = self.captcha_preserve.take();
                match preserved {
                    Some((flags, cat_focus, focus, _input)) => {
                        self.captcha_preserve = Some((flags, cat_focus, focus, String::new()));
                    },
                    None => {},
                }
                self.captcha_error = Some(String::from_str(CAPTCHA_WRONG));
                self.phase = QuizPhase::FetchingQuestion;
                single(Effect::FetchCaptcha)
            },
            AppEvent::LlmRetryFire => {
                if matches!(self.phase, QuizPhase::WaitingRetry { .. }) {
                    let effects = self.spawn_llm();
                    self.phase = QuizPhase::WaitingLlm;
                    effects
                } else {
                    Vec::new()
                }
            },
            AppEvent::SubmitOk { score } => {
                let correct = score > self.score;
                self.score = score;
                let countdown = if self.cfg_fast_mode { RESULT_COUNTDOWN_FAST } else { RESULT_COUNTDOWN };
                self.phase = QuizPhase::ShowingResult { correct, countdown };
                Vec::new()
            },
            _ => {
                proof {
                    assert(false);
                }
                Vec::new()
            },
        }
    }

    fn on_closing(&mut self, ev: AppEvent, now: i64) -> (effects: Vec<Effect>)
        requires
            old(self).wf(),
            ev is SubmitFail || ev is QuizDone || ev is Fail,
        ensures
            final(self).wf(),
            handled(*old(self), *final(self), ev, now, effects@),
    {
        match ev {
            AppEvent::SubmitFail(msg) => {
                let effects = self.interrupt_session(msg.as_str(), STAGE_SUBMIT, now);
                self.phase = QuizPhase::Error(msg);
                effects
            },
            AppEvent::QuizDone { score, scores } => {
                let effects = self.finish_session(score, &scores, now);
                self.phase = QuizPhase::Finished { score, scores };
                effects
            },
            AppEvent::Fail(msg) => {
                let effects = self.interrupt_session(msg.as_str(), STAGE_WORKFLOW, now);
                self.phase = QuizPhase::Error(msg);
                effects
            },
            _ => {
                proof {
                    assert(false);
                }
                Vec::new()
            },
        }
    }

    /// Handles a report of the background work. On any page but the quiz
    /// every report is dropped, so that work left running after the quiz
    /// was closed changes nothing.
    pub fn process(&mut self, ev: AppEvent, now: i64) -> (effects: Vec<Effect>)
        requires
            old(self).wf(),
        ensures
            final(self).wf(),
            old(self).page != Page::Quiz ==> *final(self) == *old(self) && effects@.len() == 0,
            old(self).page == Page::Quiz ==> handled(*old(self), *final(self), ev, now, effects@),
    {
        if self.page != Page::Quiz {
            return Vec::new();
        }
        match ev {
            AppEvent::QuestionReady { num, question, answers, id } => self.on_question_ready(num, question, answers, id, now),
            AppEvent::CaptchaData { categories, url, token, image_bytes } => self.on_captcha_data(categories, url, token, image_bytes),
            AppEvent::LlmChunk(chunk) => self.on_chunk(chunk),
            AppEvent::LlmRetry { reason } => self.on_retry(reason),
            AppEvent::SubmitFail(_) | AppEvent::QuizDone { .. } | AppEvent::Fail(_) => self.on_closing(ev, now),
            _ => self.on_simple(ev),
        }
    }

    /// One tick of the clock: moves the spinner, counts down the answer
    /// result, the level check and the login QR code, and starts the next
    /// step when a countdown runs out.
    pub fn tick(&mut self, now: i64, quiz_cancelled: bool) -> (effects: Vec<Effect>)
        requires
            old(self).wf(),
        ensures
            final(self).wf(),
            ticked(*old(self), *final(self), now, quiz_cancelled, effects@),
    {
        self.spinner = (self.spinner + 1) % 10;
        if quiz_cancelled {
            return Vec::new();
        }
        if let QuizPhase::ShowingResult { correct, countdown } = self.phase {
            self.tick_result(correct, countdown, now)
        } else if let QuizPhase::LevelVerified { level, countdown } = self.phase {
            self.tick_level(level, countdown, now)
        } else if matches!(self.phase, QuizPhase::WaitingScan { .. }) {
            self.tick_scan()
        } else {
            Vec::new()
        }
    }

    fn tick_result(&mut self, correct: bool, countdown: u8, now: i64) -> (effects: Vec<Effect>)
        requires
            old(self).wf(),
            old(self).phase == (QuizPhase::ShowingResult { correct, countdown }),
        ensures
            final(self).wf(),
            advanced(*old(self), *final(self), now, effects@),
    {
        if countdown > 1 {
            self.phase = QuizPhase::ShowingResult { correct, countdown: countdown - 1 };
            Vec::new()
        } else {
            self.finish_question(correct, now)
        }
    }

    fn tick_level(&mut self, level: i64, countdown: u8, now: i64) -> (effects: Vec<Effect>)
        requires
            old(self).wf(),
            old(self).phase == (QuizPhase::LevelVerified { level, countdown }),
        ensures
            final(self).wf(),
            advanced(*old(self), *final(self), now, effects@),
    {
        if countdown > 1 {
            self.phase = QuizPhase::LevelVerified { level, countdown: countdown - 1 };
            Vec::new()
        } else if self.quiz_intent == QuizIntent::LoginOnly {
            self.phase = QuizPhase::NotConfigured;
            self.back(now)
        } else {
            let n = count_correct_exec(&self.history);
            self.score = n as i64;
            self.phase = QuizPhase::FetchingQuestion;
            single(Effect::FetchQuestion)
        }
    }

    fn tick_scan(&mut self) -> (effects: Vec<Effect>)
        requires
            old(self).wf(),
            old(self).phase is WaitingScan,
        ensures
            final(self).wf(),
            advanced(*old(self), *final(self), 0, effects@),
    {
        let phase = self.take_phase_for_tick();
        match phase {
            QuizPhase::WaitingScan { url, qr, auth_code, countdown } => {
                if countdown > 0 {
                    self.qr_poll_tick = self.qr_poll_tick + 1;
                    if self.qr_poll_tick >= QR_POLL_TICKS {
                        self.qr_poll_tick = 0;
                        let code = auth_code.clone();
                        self.phase = QuizPhase::WaitingScan { url, qr, auth_code, countdown: countdown - 1 };
                        single(Effect::PollQr(code))
                    } else {
                        self.phase = QuizPhase::WaitingScan { url, qr, auth_code, countdown };
                        Vec::new()
                    }
                } else {
                    self.phase = QuizPhase::LoginTimeout { retry: true };
                    Vec::new()
                }
            },
            other => {
                proof {
                    assert(false);
                }
                self.phase = other;
                Vec::new()
            },
        }
    }

    /// Takes the quiz phase out, leaving `NotConfigured` in its place.
    fn take_phase_for_tick(&mut self) -> (p: QuizPhase)
        ensures
            p == old(self).phase,
            *final(self) == (App { phase: QuizPhase::NotConfigured, ..*old(self) }),
    {
        let mut p = QuizPhase::NotConfigured;
        std::mem::swap(&mut p, &mut self.phase);
        p
    }

    /// The answer's result was shown: records the question, then fetches
    /// the next one, or the final result after the last.
    fn finish_question(&mut self, correct: bool, now: i64) -> (effects: Vec<Effect>)
        requires
            old(self).wf(),
        ensures
            final(self).wf(),
            question_finished(*old(self), *final(self), correct, now, effects@),
    {
        let num = self.question_num;
        let item = HistoryItem {
            num: self.question_num,
            question: self.question_text.clone(),
            options: answer_texts(&self.answers),
            chosen_idx: self.chosen_answer_idx,
            correct,
            correct_idx: None,
        };
        self.history.push(item);
        proof {
            assert(self.history@.drop_last() =~= old(self).history@);
        }
        let mut effects = single(Effect::SaveHistory);
        self.record_session_question(correct, now);
        if num < QUESTION_COUNT {
            self.phase = QuizPhase::FetchingQuestion;
            effects.push(Effect::FetchQuestion);
            proof {
                assert(effects@ =~= seq![Effect::SaveHistory, Effect::FetchQuestion]);
            }
        } else {
            self.phase = QuizPhase::Submitting;
            effects.push(Effect::FetchFinalResult);
            proof {
                assert(effects@ =~= seq![Effect::SaveHistory, Effect::FetchFinalResult]);
            }
        }
        effects
    }
}

} // verus!
