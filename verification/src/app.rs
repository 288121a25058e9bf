//! The quiz assistant's state: pages, the phases of a quiz run, the
//! records of answered questions and sessions, and the effects that the
//! surrounding program carries out on the state's behalf.
use vstd::prelude::*;
use crate::config::{texts, AuthData, OpenAiConfig};
use crate::llm::LlmChunk;

verus! {

/// The page on screen.
#[derive(Debug, Clone, Copy, PartialEq, Eq, Structural)]
pub enum Page {
    Home,
    Config,
    Quiz,
}

/// The highlighted entry of the home menu.
#[derive(Debug, Clone, Copy, PartialEq, Eq, Structural)]
pub enum HomeSelection {
    StartQuiz,
    Config,
    Quit,
}

/// The focused control of the settings page.
#[derive(Debug, Clone, Copy, PartialEq, Eq, Structural)]
pub enum ConfigFocus {
    BaseUrl,
    Model,
    ApiKey,
    ThinkingToggle,
    ThinkingEffort,
    FastModeToggle,
    SaveBtn,
    TemplateBtn,
    ResetBtn,
}

/// The phases of a quiz run.
#[derive(Debug, Clone)]
#[allow(inconsistent_fields)]
pub enum QuizPhase {
    NotConfigured,
    LoggingIn,
    WaitingScan {
        url: String,
        qr: String,
        auth_code: String,
        countdown: u32,
    },
    LoginTimeout {
        retry: bool,
    },
    CheckingLevel,
    LevelVerified {
        level: i64,
        countdown: u8,
    },
    LevelInsufficient {
        level: i64,
    },
    LevelCheckFailed(String),
    FetchingQuestion,
    WaitingLlm,
    /// Waiting `delay_secs` seconds before asking the model again.
    WaitingRetry {
        attempt: u32,
        delay_secs: u64,
    },
    Submitting,
    ShowingResult {
        correct: bool,
        countdown: u8,
    },
    Captcha(CaptchaState),
    Finished {
        score: i64,
        scores: Vec<ScoreItem>,
    },
    Error(String),
}

/// Why the quiz page was opened: to answer, or only to log in.
#[derive(Debug, Clone, Copy, PartialEq, Eq, Structural)]
pub enum QuizIntent {
    Answer,
    LoginOnly,
}

/// The focused part of the captcha form.
#[derive(Debug, Clone, Copy, PartialEq, Eq, Structural)]
pub enum CaptchaFocus {
    Categories,
    Input,
    Submit,
}

/// The captcha form: the categories to choose from and the code typed in.
#[derive(Debug, Clone)]
pub struct CaptchaState {
    pub categories: Vec<CategoryItem>,
    pub cat_focus: usize,
    pub captcha_url: String,
    pub captcha_token: String,
    pub input: String,
    pub focus: CaptchaFocus,
    pub error: String,
}

/// A question category that may be chosen.
#[derive(Debug, Clone)]
pub struct CategoryItem {
    pub id: i64,
    pub name: String,
    pub selected: bool,
}

/// The score of one category in the final result.
#[derive(Debug, Clone)]
pub struct ScoreItem {
    pub category: String,
    pub score: i64,
    pub total: i64,
}

/// How a session ended.
#[derive(Debug, Clone, Copy, PartialEq, Eq, Structural)]
pub enum SessionStatus {
    Passed,
    Failed,
    Interrupted,
}

/// One answered question, as a session records it.
#[derive(Debug, Clone)]
pub struct QuestionHistory {
    pub question_number: u32,
    pub question: String,
    pub options: Vec<String>,
    pub chosen_index: usize,
    pub correct: bool,
    pub correct_index: Option<usize>,
}

/// One quiz run from its first question to its end.
#[derive(Debug, Clone)]
pub struct SessionHistory {
    pub id: String,
    pub started_at: i64,
    pub finished_at: Option<i64>,
    pub updated_at: i64,
    pub model: String,
    pub categories: Vec<String>,
    pub status: SessionStatus,
    pub completed_questions: u32,
    pub score: i64,
    pub category_scores: Vec<ScoreItem>,
    pub failure_stage: Option<String>,
    pub failure_message: Option<String>,
    pub questions: Vec<QuestionHistory>,
}

/// What the background work reports back.
#[derive(Debug)]
pub enum AppEvent {
    TicketReady(String),
    QrReady {
        url: String,
        qr: String,
        auth_code: String,
    },
    LoginOk(AuthData),
    LoginPending,
    LevelOk(i64),
    LevelFail(i64),
    LevelCheckFailed(String),
    QuestionReady {
        num: u32,
        question: String,
        answers: Vec<AnswerItem>,
        id: i64,
    },
    NeedCaptcha,
    CaptchaData {
        categories: Vec<CategoryItem>,
        url: String,
        token: String,
        image_bytes: Option<Vec<u8>>,
    },
    CaptchaRejected,
    LlmChunk(LlmChunk),
    LlmRetry {
        reason: String,
    },
    LlmRetryFire,
    SubmitOk {
        score: i64,
    },
    SubmitFail(String),
    QuizDone {
        score: i64,
        scores: Vec<ScoreItem>,
    },
    Fail(String),
}

/// An option of the current question.
#[derive(Debug, Clone)]
pub struct AnswerItem {
    pub text: String,
    pub hash: String,
}

/// One answered question of the run in progress.
#[derive(Debug, Clone)]
pub struct HistoryItem {
    pub num: u32,
    pub question: String,
    pub options: Vec<String>,
    pub chosen_idx: usize,
    pub correct: bool,
    pub correct_idx: Option<usize>,
}

/// Work that the state asks the surrounding program to do. The program
/// carries the effects out in order, and reports the outcome of background
/// work back as `AppEvent`s.
#[derive(Debug)]
pub enum Effect {
    /// Write the current `history` to its file.
    SaveHistory,
    /// Write the current `sessions` to their file.
    SaveSessions,
    /// Remove the stored model configuration.
    DeleteOpenAiConfig,
    /// Remove the stored login credentials.
    DeleteAuth,
    /// Remove the stored history, sessions and categories.
    DeleteLocalHistory,
    /// Replace the site client with a fresh, logged-out one.
    ResetClient,
    /// Give the site client its request ticket.
    SetClientTicket(String),
    /// Give the site client the login credentials.
    SetClientAuth(AuthData),
    /// Cancel all background quiz work and start a new cancellation scope.
    CancelQuizWork,
    /// Start a new cancellation scope for the quiz work.
    NewQuizToken,
    /// Fetch a ticket, then a login QR code (`TicketReady`, `QrReady` or `Fail`).
    FetchLoginQr,
    /// Ask whether the QR code with this code was scanned (`LoginOk` or `LoginPending`).
    PollQr(String),
    /// Read the account level (`LevelOk`, `LevelFail` or `LevelCheckFailed`).
    CheckLevel,
    /// Fetch the next question (`QuestionReady`, `NeedCaptcha` or `Fail`).
    FetchQuestion,
    /// Fetch the categories and a captcha (`CaptchaData` or `Fail`).
    FetchCaptcha,
    /// Ask the model about `question` (`LlmChunk`s).
    AskLlm {
        config: OpenAiConfig,
        question: String,
        categories: Vec<String>,
    },
    /// Submit the chosen option (`SubmitOk`, `SubmitFail` or `Fail`).
    SubmitAnswer {
        question_id: i64,
        hash: String,
        text: String,
    },
    /// Submit the captcha and the chosen categories (`QuestionReady`,
    /// `NeedCaptcha`, `Fail` or `CaptchaRejected`).
    SubmitCaptcha {
        code: String,
        token: String,
        ids: String,
    },
    /// Fetch the final result (`QuizDone` or `Fail`).
    FetchFinalResult,
    /// Send `LlmRetryFire` after this many seconds, unless cancelled.
    ScheduleLlmRetry {
        secs: u64,
    },
    /// Queue an `LlmRetry` event with this reason.
    QueueLlmRetry {
        reason: String,
    },
    /// Decode and show the captcha picture, or none.
    ShowCaptchaImage(Option<Vec<u8>>),
    /// Stop showing the captcha picture.
    ClearCaptchaImage,
}

/// The spinner frames.
pub const SPINNER: [char; 10] = ['⠋', '⠙', '⠹', '⠸', '⠼', '⠴', '⠦', '⠧', '⠇', '⠏'];

/// The saved state of the captcha form while a new captcha is fetched:
/// which categories were selected, the focused category, the focused part,
/// and the typed code.
pub type CaptchaPreserve = (Vec<bool>, usize, CaptchaFocus, String);

/// The whole state of the assistant.
pub struct App {
    pub quit: bool,
    pub page: Page,
    pub prev_page: Vec<Page>,
    pub home_sel: HomeSelection,
    pub cfg_fields: [String; 3],
    pub cfg_focus: ConfigFocus,
    pub cfg_cursors: [usize; 3],
    pub cfg_thinking: bool,
    /// Reasoning strength: 0 = low, 1 = high, 2 = max.
    pub cfg_effort: usize,
    pub cfg_fast_mode: bool,
    pub config_confirm_reset: bool,
    pub config_reset_choice: u8,
    pub cfg_preset_open: bool,
    pub cfg_preset_sel: usize,
    pub phase: QuizPhase,
    pub score: i64,
    pub question_id: i64,
    pub question_num: u32,
    pub answers: Vec<AnswerItem>,
    pub question_text: String,
    pub spinner: usize,
    pub history: Vec<HistoryItem>,
    pub sessions: Vec<SessionHistory>,
    pub active_session: Option<SessionHistory>,
    pub history_scroll: usize,
    pub chosen_answer_idx: usize,
    pub thinking_text: String,
    pub answer_text: String,
    pub config: Option<OpenAiConfig>,
    pub auth: Option<AuthData>,
    pub qr_auth_code: Option<String>,
    pub qr_poll_tick: u32,
    pub captcha_preserve: Option<CaptchaPreserve>,
    pub captcha_error: Option<String>,
    pub selected_categories: Vec<String>,
    pub llm_retries: u32,
    pub quiz_intent: QuizIntent,
}

/// The option texts of a list of answers.
pub open spec fn option_texts(answers: Seq<AnswerItem>) -> Seq<Seq<char>> {
    answers.map_values(|a: AnswerItem| a.text@)
}

/// `q` records the answered question `item`.
pub open spec fn records(q: QuestionHistory, item: HistoryItem) -> bool {
    &&& q.question_number == item.num
    &&& q.question@ == item.question@
    &&& texts(q.options@) == texts(item.options@)
    &&& q.chosen_index == item.chosen_idx
    &&& q.correct == item.correct
    &&& q.correct_index == item.correct_idx
}

/// A copy of a list of strings.
pub fn copy_strings(v: &Vec<String>) -> (r: Vec<String>)
    ensures
        r@ == v@,
        texts(r@) == texts(v@),
{
    let mut r: Vec<String> = Vec::new();
    let mut i: usize = 0;
    while i < v.len()
        invariant
            i <= v@.len(),
            r@ == v@.take(i as int),
        decreases v@.len() - i,
    {
        r.push(v[i].clone());
        proof {
            assert(r@ =~= v@.take(i + 1));
        }
        i = i + 1;
    }
    proof {
        assert(v@.take(v@.len() as int) =~= v@);
    }
    r
}

/// The texts of the options, as a list of strings.
pub fn answer_texts(answers: &Vec<AnswerItem>) -> (r: Vec<String>)
    ensures
        texts(r@) == option_texts(answers@),
{
    let mut r: Vec<String> = Vec::new();
    let mut i: usize = 0;
    while i < answers.len()
        invariant
            i <= answers@.len(),
            r@.len() == i,
            forall|j: int| 0 <= j < i ==> (#[trigger] r@[j])@ == answers@[j].text@,
        decreases answers@.len() - i,
    {
        r.push(answers[i].text.clone());
        i = i + 1;
    }
    proof {
        assert(texts(r@) =~= option_texts(answers@));
    }
    r
}

impl ScoreItem {
    /// A field-for-field copy.
    pub fn duplicate(&self) -> (r: Self)
        ensures
            r == *self,
    {
        ScoreItem { category: self.category.clone(), score: self.score, total: self.total }
    }
}

/// A copy of a list of category scores.
pub fn copy_scores(v: &Vec<ScoreItem>) -> (r: Vec<ScoreItem>)
    ensures
        r@ == v@,
{
    let mut r: Vec<ScoreItem> = Vec::new();
    let mut i: usize = 0;
    while i < v.len()
        invariant
            i <= v@.len(),
            r@ == v@.take(i as int),
        decreases v@.len() - i,
    {
        r.push(v[i].duplicate());
        proof {
            assert(r@ =~= v@.take(i + 1));
        }
        i = i + 1;
    }
    proof {
        assert(v@.take(v@.len() as int) =~= v@);
    }
    r
}

impl QuestionHistory {
    /// The session record of an answered question.
    pub fn from_history_item(item: &HistoryItem) -> (q: Self)
        ensures
            records(q, *item),
    {
        QuestionHistory {
            question_number: item.num,
            question: item.question.clone(),
            options: copy_strings(&item.options),
            chosen_index: item.chosen_idx,
            correct: item.correct,
            correct_index: item.correct_idx,
        }
    }
}

} // verus!
