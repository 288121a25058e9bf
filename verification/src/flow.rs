//! Moving between pages, the settings form, starting a login, and the
//! captcha form: the state changes that the user's actions make.
use vstd::prelude::*;
use crate::app::{
    App, CaptchaPreserve, CaptchaState, CategoryItem, ConfigFocus, Effect,
    HistoryItem, HomeSelection, Page, QuizIntent, QuizPhase, SessionHistory, SPINNER,
};
use crate::config::{texts, AuthData, OpenAiConfig, PresetTemplate};
use crate::session::interrupted_in;
use crate::text::{
    chars_of, decimal_int, decimal_of_i64, has_prefix, push_chars, push_str, starts_with,
    str_equal, string_of, trim, trim_chars, trim_end_char, trim_end_matching,
};
use vstd::utf8::encode_utf8;

verus! {

/// The length in bytes of the UTF-8 encoding of `s` (`str::len`).
pub open spec fn byte_len(s: Seq<char>) -> nat {
    encode_utf8(s).len()
}

/// The reasoning strengths in the order of `cfg_effort`.
pub const EFFORT_LEVELS: [&'static str; 3] = ["low", "high", "max"];

/// The position of a reasoning strength in `EFFORT_LEVELS`; "high" for any
/// other text.
pub open spec fn effort_index(effort: Seq<char>) -> usize {
    if effort == "low"@ {
        0
    } else if effort == "max"@ {
        2
    } else {
        1
    }
}

/// The position of a reasoning strength in `EFFORT_LEVELS`.
pub fn effort_position(effort: &str) -> (i: usize)
    ensures
        i == effort_index(effort@),
{
    proof {
        reveal_strlit("low");
        reveal_strlit("high");
        reveal_strlit("max");
        assert("high"@[0] != "low"@[0]);
        assert("high"@[0] != "max"@[0]);
        assert("max"@[0] != "low"@[0]);
    }
    if str_equal(effort, "low") {
        0
    } else if str_equal(effort, "high") {
        1
    } else if str_equal(effort, "max") {
        2
    } else {
        1
    }
}

/// The pages pushed on the back stack, and the page shown, before and after a step back.
pub open spec fn popped(page: Page, stack: Seq<Page>, page2: Page, stack2: Seq<Page>) -> bool {
    if stack.len() > 0 {
        page2 == stack.last() && stack2 == stack.drop_last()
    } else {
        page2 == page && stack2 == stack
    }
}

/// The message and stage recorded when the user leaves a quiz.
pub const QUIT_MESSAGE: &'static str = "用户退出答题";

/// The stage recorded when the user leaves a quiz.
pub const QUIT_STAGE: &'static str = "quiz_exit";

/// `b` and `effects` are `a` after stopping the quiz work: the session is
/// closed as interrupted, then all background work is cancelled.
pub open spec fn stopped(a: App, b: App, message: Seq<char>, stage: Seq<char>, now: i64, effects: Seq<Effect>) -> bool {
    &&& effects.len() >= 1
    &&& effects.last() == Effect::CancelQuizWork
    &&& interrupted_in(a, b, message, stage, now, effects.drop_last())
}

/// `b` and `effects` are `a` after going back one page. Leaving the quiz
/// page stops the quiz work.
pub open spec fn went_back(a: App, b: App, now: i64, effects: Seq<Effect>) -> bool {
    let m = App { page: b.page, prev_page: b.prev_page, ..a };
    &&& popped(a.page, a.prev_page@, b.page, b.prev_page@)
    &&& if a.page == Page::Quiz {
        stopped(m, b, QUIT_MESSAGE@, QUIT_STAGE@, now, effects)
    } else {
        b == m && effects.len() == 0
    }
}

/// `b` and `effects` are `a` after starting a login: an account that is
/// logged in goes straight to the level check.
pub open spec fn login_started(a: App, b: App, effects: Seq<Effect>) -> bool {
    if a.auth is Some {
        b == App { phase: QuizPhase::CheckingLevel, ..a } && effects == seq![Effect::CheckLevel]
    } else {
        b == App { phase: QuizPhase::LoggingIn, ..a } && effects == seq![Effect::FetchLoginQr]
    }
}

/// `b` and `effects` are `a` after opening the quiz to answer: the quiz
/// page is opened with a new cancellation scope; without a model
/// configuration it asks for one, else the login starts.
pub open spec fn quiz_entered(a: App, b: App, effects: Seq<Effect>) -> bool {
    let m = App { quiz_intent: QuizIntent::Answer, page: Page::Quiz, prev_page: b.prev_page, ..a };
    &&& b.page == Page::Quiz
    &&& b.prev_page@ == a.prev_page@.push(a.page)
    &&& effects.len() >= 1
    &&& effects[0] == Effect::NewQuizToken
    &&& if a.config is None {
        b == (App { phase: QuizPhase::NotConfigured, ..m }) && effects.len() == 1
    } else {
        login_started(m, b, effects.skip(1))
    }
}

/// `b` and `effects` are `a` after opening the quiz only to log in.
pub open spec fn login_entered(a: App, b: App, effects: Seq<Effect>) -> bool {
    &&& b.page == Page::Quiz
    &&& b.prev_page@ == a.prev_page@.push(a.page)
    &&& effects.len() >= 1
    &&& effects[0] == Effect::NewQuizToken
    &&& login_started(App { quiz_intent: QuizIntent::LoginOnly, page: Page::Quiz, prev_page: b.prev_page, ..a }, b, effects.skip(1))
}

/// `b` and `effects` are `a` after opening `page`.
pub open spec fn opened(a: App, b: App, page: Page, effects: Seq<Effect>) -> bool {
    &&& b == App { page: page, prev_page: b.prev_page, ..a }
    &&& b.prev_page@ == a.prev_page@.push(a.page)
    &&& effects == (if page == Page::Quiz { seq![Effect::NewQuizToken] } else { Seq::empty() })
}

/// The number of selected categories.
pub open spec fn count_selected(cats: Seq<CategoryItem>) -> nat
    decreases cats.len(),
{
    if cats.len() == 0 {
        0
    } else {
        count_selected(cats.drop_last()) + (if cats.last().selected { 1nat } else { 0 })
    }
}

/// The most categories that may be selected.
pub const MAX_SELECTED_CATEGORIES: usize = 3;

/// `b` is the captcha form `a` after the category at `index` was clicked:
/// it flips when it is selected or fewer than three are, and then the
/// form's error is cleared.
pub open spec fn toggled(a: CaptchaState, b: CaptchaState, index: usize) -> bool {
    let n = count_selected(a.categories@);
    if index < a.categories@.len() && (a.categories@[index as int].selected || n < 3) {
        let c = a.categories@[index as int];
        &&& b == CaptchaState { categories: b.categories, error: b.error, ..a }
        &&& b.categories@ == a.categories@.update(index as int, CategoryItem { id: c.id, name: c.name, selected: !c.selected })
        &&& b.error@ == Seq::<char>::empty()
    } else {
        b == a
    }
}

/// The selection flags of the categories.
pub open spec fn selection_flags(cats: Seq<CategoryItem>) -> Seq<bool> {
    cats.map_values(|c: CategoryItem| c.selected)
}

/// The selected categories.
pub open spec fn selected_items(cats: Seq<CategoryItem>) -> Seq<CategoryItem>
    decreases cats.len(),
{
    if cats.len() == 0 {
        Seq::empty()
    } else if cats.last().selected {
        selected_items(cats.drop_last()).push(cats.last())
    } else {
        selected_items(cats.drop_last())
    }
}

/// The ids of the selected categories, separated by commas.
pub open spec fn selected_ids_text(cats: Seq<CategoryItem>) -> Seq<char> {
    crate::config::join_seq(selected_items(cats).map_values(|c: CategoryItem| decimal_int(c.id as int)), ","@)
}

/// The names of the selected categories.
pub open spec fn selected_names(cats: Seq<CategoryItem>) -> Seq<Seq<char>> {
    selected_items(cats).map_values(|c: CategoryItem| c.name@)
}

/// A captcha answer ready to be sent: the typed code, the captcha's token,
/// and the ids of the chosen categories.
#[derive(Debug)]
pub struct CaptchaSubmission {
    pub code: String,
    pub token: String,
    pub ids: String,
}

/// The error when the captcha form is not shown.
pub const CAPTCHA_NOT_LOADED: &'static str = "验证码尚未加载";

/// The error when neither a category is chosen nor a code typed.
pub const CAPTCHA_NEEDS_BOTH: &'static str = "请选择分类并输入验证码";

/// The error when no category is chosen.
pub const CAPTCHA_NEEDS_CATEGORY: &'static str = "请选择分类";

/// The error when no code is typed.
pub const CAPTCHA_NEEDS_CODE: &'static str = "请输入验证码";

/// What submitting the captcha form gives for the state `a`.
pub open spec fn captcha_outcome(a: App, b: App, r: Result<CaptchaSubmission, String>) -> bool {
    match a.phase {
        QuizPhase::Captcha(st) => {
            let none_chosen = count_selected(st.categories@) == 0;
            let code = trim(st.input@);
            if none_chosen || code.len() == 0 {
                &&& b == a
                &&& r matches Err(e) && e@ == (if none_chosen && code.len() == 0 {
                    CAPTCHA_NEEDS_BOTH@
                } else if none_chosen {
                    CAPTCHA_NEEDS_CATEGORY@
                } else {
                    CAPTCHA_NEEDS_CODE@
                })
            } else {
                &&& b == App { selected_categories: b.selected_categories, captcha_error: None, ..a }
                &&& texts(b.selected_categories@) == selected_names(st.categories@)
                &&& r matches Ok(s) && {
                    &&& s.code@ == code
                    &&& s.token@ == st.captcha_token@
                    &&& s.ids@ == selected_ids_text(st.categories@)
                }
            }
        },
        _ => b == a && (r matches Err(e) && e@ == CAPTCHA_NOT_LOADED@),
    }
}

/// The form state kept while the next captcha is fetched.
pub open spec fn preserves(p: CaptchaPreserve, st: CaptchaState, code: Seq<char>) -> bool {
    &&& p.0@ == selection_flags(st.categories@)
    &&& p.1 == st.cat_focus
    &&& p.2 == st.focus
    &&& p.3@ == code
}

/// The error message when a field of the settings form is empty.
pub const CONFIG_INCOMPLETE: &'static str = "请完整填写 API URL、模型名称和 API Key";

/// The error message when the API URL is not http or https.
pub const CONFIG_BAD_SCHEME: &'static str = "API URL 必须以 http:// 或 https:// 开头";

/// The endpoint as the settings form gives it: trimmed, without trailing slashes.
pub open spec fn form_base_url(a: App) -> Seq<char> {
    trim_end_char(trim(a.cfg_fields@[0]@), '/')
}

/// The settings form can be saved: all three fields are filled in and the
/// endpoint starts with `https://` or `http://`.
pub open spec fn form_valid(a: App) -> bool {
    let base = form_base_url(a);
    &&& base.len() > 0
    &&& trim(a.cfg_fields@[1]@).len() > 0
    &&& trim(a.cfg_fields@[2]@).len() > 0
    &&& (has_prefix(base, "https://"@) || has_prefix(base, "http://"@))
}

/// What saving the settings form gives for the state `a`.
pub open spec fn config_outcome(a: App, r: Result<OpenAiConfig, String>) -> bool {
    let base = form_base_url(a);
    let model = trim(a.cfg_fields@[1]@);
    let key = trim(a.cfg_fields@[2]@);
    if base.len() == 0 || model.len() == 0 || key.len() == 0 {
        r matches Err(e) && e@ == CONFIG_INCOMPLETE@
    } else if !(has_prefix(base, "https://"@) || has_prefix(base, "http://"@)) {
        r matches Err(e) && e@ == CONFIG_BAD_SCHEME@
    } else {
        r matches Ok(c) && {
            &&& c.base_url@ == base
            &&& c.model@ == model
            &&& c.api_key@ == key
            &&& c.enable_thinking == a.cfg_thinking
            &&& c.reasoning_effort@ == EFFORT_LEVELS@[a.cfg_effort as int]@
            &&& c.enable_fast_mode == a.cfg_fast_mode
        }
    }
}

/// The settings form fields and cursors of `b` hold the configuration `c`.
pub open spec fn form_shows(b: App, c: OpenAiConfig) -> bool {
    &&& b.cfg_fields@[0]@ == c.base_url@
    &&& b.cfg_fields@[1]@ == c.model@
    &&& b.cfg_fields@[2]@ == c.api_key@
}

/// The cursors of the settings form stand at the end of each field.
pub open spec fn cursors_at_end(b: App) -> bool {
    &&& b.cfg_cursors@[0] == byte_len(b.cfg_fields@[0]@) as usize
    &&& b.cfg_cursors@[1] == byte_len(b.cfg_fields@[1]@) as usize
    &&& b.cfg_cursors@[2] == byte_len(b.cfg_fields@[2]@) as usize
}

/// `b` is the state that `App::new` starts from.
pub open spec fn starts_from(
    b: App,
    config: Option<OpenAiConfig>,
    auth: Option<AuthData>,
    history: Seq<HistoryItem>,
    sessions: Seq<SessionHistory>,
    categories: Seq<String>,
) -> bool {
    &&& !b.quit
    &&& b.page == Page::Home
    &&& b.prev_page@.len() == 0
    &&& b.home_sel == HomeSelection::StartQuiz
    &&& match config {
        Some(c) => form_shows(b, c),
        None => b.cfg_fields@[0]@.len() == 0 && b.cfg_fields@[1]@.len() == 0 && b.cfg_fields@[2]@.len() == 0,
    }
    &&& cursors_at_end(b)
    &&& b.cfg_focus == ConfigFocus::BaseUrl
    &&& b.cfg_thinking == (match config { Some(c) => c.enable_thinking, None => true })
    &&& b.cfg_effort == (match config { Some(c) => effort_index(c.reasoning_effort@), None => 1 })
    &&& b.cfg_fast_mode == (match config { Some(c) => c.enable_fast_mode, None => false })
    &&& !b.config_confirm_reset && b.config_reset_choice == 0
    &&& !b.cfg_preset_open && b.cfg_preset_sel == 0
    &&& b.phase is NotConfigured
    &&& b.score == 0 && b.question_id == 0 && b.question_num == 0
    &&& b.answers@.len() == 0 && b.question_text@.len() == 0
    &&& b.spinner == 0
    &&& b.history@ == history && b.sessions@ == sessions && b.active_session is None
    &&& b.history_scroll == 0 && b.chosen_answer_idx == 0
    &&& b.thinking_text@.len() == 0 && b.answer_text@.len() == 0
    &&& b.config == config && b.auth == auth
    &&& b.qr_auth_code is None && b.qr_poll_tick == 0
    &&& b.captcha_preserve is None && b.captcha_error is None
    &&& b.selected_categories@ == categories
    &&& b.llm_retries == 0
    &&& b.quiz_intent == QuizIntent::Answer
}

/// `b` and `effects` are `a` after all local data was removed and the
/// user went back one page.
pub open spec fn was_reset(a: App, b: App, now: i64, effects: Seq<Effect>) -> bool {
    let m = App {
        config: None,
        auth: None,
        cfg_fields: b.cfg_fields,
        cfg_cursors: b.cfg_cursors,
        cfg_thinking: true,
        cfg_effort: 1,
        config_confirm_reset: false,
        config_reset_choice: 0,
        cfg_preset_open: false,
        cfg_preset_sel: 0,
        history: b.history,
        sessions: b.sessions,
        active_session: None,
        selected_categories: b.selected_categories,
        ..a
    };
    &&& effects.len() >= 4
    &&& effects.take(4) == seq![Effect::DeleteOpenAiConfig, Effect::DeleteAuth, Effect::DeleteLocalHistory, Effect::ResetClient]
    &&& went_back(m, b, now, effects.skip(4))
    &&& b.cfg_fields@[0]@.len() == 0 && b.cfg_fields@[1]@.len() == 0 && b.cfg_fields@[2]@.len() == 0
    &&& b.cfg_cursors@ == seq![0usize, 0, 0]
    &&& b.history@.len() == 0 && b.sessions@.len() == 0 && b.selected_categories@.len() == 0
}

/// `b` and `effects` are `a` after logging out and going back one page.
pub open spec fn logged_out(a: App, b: App, now: i64, effects: Seq<Effect>) -> bool {
    let m = App { auth: None, config_confirm_reset: false, config_reset_choice: 0, ..a };
    &&& effects.len() >= 2
    &&& effects.take(2) == seq![Effect::DeleteAuth, Effect::ResetClient]
    &&& went_back(m, b, now, effects.skip(2))
}

/// Appends `more` to `effects`.
pub fn add_effects(effects: &mut Vec<Effect>, more: Vec<Effect>)
    ensures
        final(effects)@ == old(effects)@ + more@,
{
    let mut more = more;
    effects.append(&mut more);
}

/// One effect alone.
pub fn single(e: Effect) -> (v: Vec<Effect>)
    ensures
        v@ == seq![e],
{
    let mut v: Vec<Effect> = Vec::new();
    v.push(e);
    v
}

/// `b` is `a` after opening the settings page: the form is filled from
/// the configuration (if any), its cursors stand at the ends, and on first
/// use the list of presets is open.
pub open spec fn config_entered(a: App, b: App) -> bool {
    &&& b.cfg_preset_open == a.config is None
    &&& a.config matches Some(c) ==> form_shows(b, c)
    &&& a.config is None ==> b.cfg_fields == a.cfg_fields
    &&& cursors_at_end(b)
    &&& b.prev_page@ == a.prev_page@.push(a.page)
    &&& b == (App {
        cfg_fields: b.cfg_fields,
        cfg_cursors: b.cfg_cursors,
        cfg_focus: ConfigFocus::BaseUrl,
        cfg_preset_open: b.cfg_preset_open,
        cfg_preset_sel: 0,
        page: Page::Config,
        prev_page: b.prev_page,
        ..a
    })
}

/// The byte length of a string.
pub fn str_byte_len(s: &String) -> (n: usize)
    ensures
        n == byte_len(s@) as usize,
{
    s.as_str().len()
}

impl App {
    /// The starting state: the configuration given on the command line,
    /// else the stored one; the stored credentials, history, sessions and
    /// categories.
    pub fn new(
        cli_config: Option<OpenAiConfig>,
        stored_config: Option<OpenAiConfig>,
        auth: Option<AuthData>,
        history: Vec<HistoryItem>,
        sessions: Vec<SessionHistory>,
        selected_categories: Vec<String>,
    ) -> (app: App)
        ensures
            starts_from(app, if cli_config is Some { cli_config } else { stored_config }, auth, history@, sessions@, selected_categories@),
            app.wf(),
    {
        let config = match cli_config {
            Some(c) => Some(c),
            None => stored_config,
        };
        let cfg_fields: [String; 3] = match &config {
            Some(c) => [c.base_url.clone(), c.model.clone(), c.api_key.clone()],
            None => [String::new(), String::new(), String::new()],
        };
        let cfg_cursors: [usize; 3] = [
            str_byte_len(&cfg_fields[0]),
            str_byte_len(&cfg_fields[1]),
            str_byte_len(&cfg_fields[2]),
        ];
        let cfg_thinking = match &config {
            Some(c) => c.enable_thinking,
            None => true,
        };
        let cfg_effort: usize = match &config {
            Some(c) => effort_position(c.reasoning_effort.as_str()),
            None => 1,
        };
        let cfg_fast_mode = match &config {
            Some(c) => c.enable_fast_mode,
            None => false,
        };
        App {
            quit: false,
            page: Page::Home,
            prev_page: Vec::new(),
            home_sel: HomeSelection::StartQuiz,
            cfg_fields,
            cfg_focus: ConfigFocus::BaseUrl,
            cfg_cursors,
            cfg_thinking,
            cfg_effort,
            cfg_fast_mode,
            config_confirm_reset: false,
            config_reset_choice: 0,
            cfg_preset_open: false,
            cfg_preset_sel: 0,
            phase: QuizPhase::NotConfigured,
            score: 0,
            question_id: 0,
            question_num: 0,
            answers: Vec::new(),
            question_text: String::new(),
            spinner: 0,
            history,
            sessions,
            active_session: None,
            history_scroll: 0,
            chosen_answer_idx: 0,
            thinking_text: String::new(),
            answer_text: String::new(),
            config,
            auth,
            qr_auth_code: None,
            qr_poll_tick: 0,
            captcha_preserve: None,
            captcha_error: None,
            selected_categories,
            llm_retries: 0,
            quiz_intent: QuizIntent::Answer,
        }
    }

    /// The bounds that every step keeps: the spinner frame, the retry
    /// count, the chosen reasoning strength and the QR poll counter.
    pub open spec fn wf(&self) -> bool {
        &&& self.spinner < 10
        &&& self.llm_retries <= 3
        &&& self.cfg_effort < 3
        &&& self.qr_poll_tick < 10
    }

    /// The spinner frame to show.
    pub fn spin_char(&self) -> (c: char)
        ensures
            c == SPINNER@[(self.spinner % 10) as int],
    {
        SPINNER[self.spinner % 10]
    }

    /// Opens `page`, remembering the current one. Opening the quiz starts a
    /// new cancellation scope for its work.
    pub fn go(&mut self, page: Page) -> (effects: Vec<Effect>)
        ensures
            opened(*old(self), *final(self), page, effects@),
    {
        let current = self.page;
        self.prev_page.push(current);
        self.page = page;
        let mut effects: Vec<Effect> = Vec::new();
        if page == Page::Quiz {
            effects.push(Effect::NewQuizToken);
        }
        effects
    }

    /// Goes back to the page before. Leaving the quiz stops its work and
    /// keeps the session as interrupted.
    pub fn back(&mut self, now: i64) -> (effects: Vec<Effect>)
        ensures
            went_back(*old(self), *final(self), now, effects@),
    {
        let leaving_quiz = self.page == Page::Quiz;
        match self.prev_page.pop() {
            Some(p) => {
                self.page = p;
            },
            None => {},
        }
        if leaving_quiz {
            self.stop_quiz(QUIT_MESSAGE, QUIT_STAGE, now)
        } else {
            Vec::new()
        }
    }

    /// Stops the quiz work: keeps the session as interrupted with `message`
    /// at `stage`, then cancels all background work.
    pub fn stop_quiz(&mut self, message: &str, stage: &str, now: i64) -> (effects: Vec<Effect>)
        ensures
            stopped(*old(self), *final(self), message@, stage@, now, effects@),
    {
        let mut effects = self.interrupt_session(message, stage, now);
        let ghost first = effects@;
        effects.push(Effect::CancelQuizWork);
        proof {
            assert(effects@.drop_last() =~= first);
        }
        effects
    }

    /// Opens the settings page with the form filled from the configuration.
    /// On first use the list of presets is opened.
    pub fn enter_config(&mut self) -> (effects: Vec<Effect>)
        ensures
            config_entered(*old(self), *final(self)),
            effects@.len() == 0,
    {
        let is_first_time = self.config.is_none();
        match &self.config {
            Some(config) => {
                self.cfg_fields = [config.base_url.clone(), config.model.clone(), config.api_key.clone()];
            },
            None => {},
        }
        self.cfg_cursors = [
            str_byte_len(&self.cfg_fields[0]),
            str_byte_len(&self.cfg_fields[1]),
            str_byte_len(&self.cfg_fields[2]),
        ];
        self.cfg_focus = ConfigFocus::BaseUrl;
        self.cfg_preset_open = is_first_time;
        self.cfg_preset_sel = 0;
        self.go(Page::Config)
    }

    /// Fills the endpoint and model fields from the preset at `index`, if there is one.
    pub fn apply_preset(&mut self, presets: &Vec<PresetTemplate>, index: usize)
        ensures
            index >= presets@.len() ==> *final(self) == *old(self),
            index < presets@.len() ==> {
                let p = presets@[index as int];
                &&& *final(self) == (App { cfg_fields: final(self).cfg_fields, cfg_cursors: final(self).cfg_cursors, ..*old(self) })
                &&& final(self).cfg_fields@[0]@ == p.config.base_url@
                &&& final(self).cfg_fields@[1]@ == p.config.model@
                &&& final(self).cfg_fields@[2] == old(self).cfg_fields@[2]
                &&& final(self).cfg_cursors@[0] == byte_len(p.config.base_url@) as usize
                &&& final(self).cfg_cursors@[1] == byte_len(p.config.model@) as usize
                &&& final(self).cfg_cursors@[2] == old(self).cfg_cursors@[2]
            },
    {
        if index < presets.len() {
            let preset = &presets[index];
            let base_url = preset.config.base_url.clone();
            let model = preset.config.model.clone();
            let key = self.cfg_fields[2].clone();
            let c0 = str_byte_len(&base_url);
            let c1 = str_byte_len(&model);
            let c2 = self.cfg_cursors[2];
            self.cfg_fields = [base_url, model, key];
            self.cfg_cursors = [c0, c1, c2];
        }
    }

    /// The configuration that the settings form describes, or why it is not valid.
    pub fn persist_config(&self) -> (r: Result<OpenAiConfig, String>)
        requires
            form_valid(*self) ==> self.cfg_effort < 3,
        ensures
            config_outcome(*self, r),
    {
        let base_url = string_of(&trim_end_matching(&trim_chars(&chars_of(self.cfg_fields[0].as_str())), '/'));
        let model = string_of(&trim_chars(&chars_of(self.cfg_fields[1].as_str())));
        let api_key = string_of(&trim_chars(&chars_of(self.cfg_fields[2].as_str())));
        if base_url.as_str().unicode_len() == 0 || model.as_str().unicode_len() == 0 || api_key.as_str().unicode_len() == 0 {
            return Err(String::from_str(CONFIG_INCOMPLETE));
        }
        let base = chars_of(base_url.as_str());
        if !(starts_with(&base, &chars_of("https://")) || starts_with(&base, &chars_of("http://"))) {
            return Err(String::from_str(CONFIG_BAD_SCHEME));
        }
        Ok(OpenAiConfig {
            base_url,
            model,
            api_key,
            enable_thinking: self.cfg_thinking,
            reasoning_effort: String::from_str(EFFORT_LEVELS[self.cfg_effort]),
            enable_fast_mode: self.cfg_fast_mode,
        })
    }

    /// Takes on a configuration that was stored.
    pub fn config_saved(&mut self, config: OpenAiConfig)
        ensures
            *final(self) == (App { config: Some(config), ..*old(self) }),
    {
        self.config = Some(config);
    }

    /// After the configuration was stored from the settings page: goes back,
    /// and when that is the quiz, starts the login.
    pub fn save_config(&mut self, now: i64) -> (effects: Vec<Effect>)
        ensures
            final(self).page != Page::Quiz ==> went_back(*old(self), *final(self), now, effects@),
            final(self).page == Page::Quiz ==> effects@.len() >= 1 && exists|m: App|
                went_back(*old(self), m, now, effects@.drop_last()) && login_started(m, *final(self), seq![effects@.last()]),
    {
        let mut effects = self.back(now);
        let ghost mid = *self;
        let ghost first = effects@;
        if self.page == Page::Quiz {
            let more = self.spawn_login();
            add_effects(&mut effects, more);
            proof {
                assert(effects@.drop_last() =~= first);
                assert(seq![effects@.last()] =~= more@);
                assert(went_back(*old(self), mid, now, effects@.drop_last()));
            }
        }
        effects
    }

    /// Opens the quiz to answer questions: without a model configuration
    /// it asks for one, else it starts the login.
    pub fn enter_quiz(&mut self) -> (effects: Vec<Effect>)
        ensures
            quiz_entered(*old(self), *final(self), effects@),
    {
        self.quiz_intent = QuizIntent::Answer;
        let mut effects = self.go(Page::Quiz);
        if self.config.is_none() {
            self.phase = QuizPhase::NotConfigured;
        } else {
            let more = self.spawn_login();
            add_effects(&mut effects, more);
            proof {
                assert(effects@.skip(1) =~= more@);
            }
        }
        effects
    }

    /// Opens the quiz only to log in.
    pub fn enter_login(&mut self) -> (effects: Vec<Effect>)
        ensures
            login_entered(*old(self), *final(self), effects@),
    {
        self.quiz_intent = QuizIntent::LoginOnly;
        let mut effects = self.go(Page::Quiz);
        let more = self.spawn_login();
        add_effects(&mut effects, more);
        proof {
            assert(effects@.skip(1) =~= more@);
        }
        effects
    }

    /// Starts the login; a logged-in account goes straight to the level check.
    pub fn spawn_login(&mut self) -> (effects: Vec<Effect>)
        ensures
            login_started(*old(self), *final(self), effects@),
    {
        if self.auth.is_some() {
            self.phase = QuizPhase::CheckingLevel;
            return single(Effect::CheckLevel);
        }
        self.phase = QuizPhase::LoggingIn;
        single(Effect::FetchLoginQr)
    }

    /// Checks the level again, or logs in where no account is logged in.
    pub fn retry_level_check(&mut self) -> (effects: Vec<Effect>)
        ensures
            login_started(*old(self), *final(self), effects@),
    {
        if self.auth.is_some() {
            self.phase = QuizPhase::CheckingLevel;
            single(Effect::CheckLevel)
        } else {
            self.spawn_login()
        }
    }

    /// Forgets the account and logs in again.
    pub fn relogin_for_quiz(&mut self) -> (effects: Vec<Effect>)
        ensures
            *final(self) == (App { auth: None, phase: QuizPhase::LoggingIn, ..*old(self) }),
            effects@ == seq![Effect::DeleteAuth, Effect::ResetClient, Effect::FetchLoginQr],
    {
        let mut effects: Vec<Effect> = Vec::new();
        effects.push(Effect::DeleteAuth);
        self.auth = None;
        effects.push(Effect::ResetClient);
        let more = self.spawn_login();
        add_effects(&mut effects, more);
        effects
    }

    /// Takes the quiz phase out, leaving `NotConfigured` in its place.
    fn take_phase(&mut self) -> (p: QuizPhase)
        ensures
            p == old(self).phase,
            *final(self) == (App { phase: QuizPhase::NotConfigured, ..*old(self) }),
    {
        let mut p = QuizPhase::NotConfigured;
        std::mem::swap(&mut p, &mut self.phase);
        p
    }

    /// Fetches a new captcha, keeping the form's choices.
    pub fn refresh_captcha(&mut self) -> (effects: Vec<Effect>)
        ensures
            old(self).phase matches QuizPhase::Captcha(st) ==> {
                &&& *final(self) == (App {
                    captcha_preserve: final(self).captcha_preserve,
                    captcha_error: None,
                    phase: QuizPhase::FetchingQuestion,
                    ..*old(self)
                })
                &&& final(self).captcha_preserve matches Some(p) && preserves(p, st, Seq::empty())
                &&& effects@ == seq![Effect::ClearCaptchaImage, Effect::FetchCaptcha]
            },
            !(old(self).phase is Captcha) ==> *final(self) == *old(self) && effects@.len() == 0,
    {
        let phase = self.take_phase();
        match phase {
            QuizPhase::Captcha(state) => {
                let selected = selection_of(&state.categories);
                self.captcha_preserve = Some((selected, state.cat_focus, state.focus, String::new()));
                self.captcha_error = None;
                self.phase = QuizPhase::FetchingQuestion;
                let mut effects: Vec<Effect> = Vec::new();
                effects.push(Effect::ClearCaptchaImage);
                effects.push(Effect::FetchCaptcha);
                effects
            },
            other => {
                self.phase = other;
                Vec::new()
            },
        }
    }

    /// Selects or deselects the category at `index`; at most three may be selected.
    pub fn toggle_captcha_category(&mut self, index: usize)
        ensures
            old(self).phase matches QuizPhase::Captcha(st) ==> {
                &&& final(self).phase matches QuizPhase::Captcha(st2) && toggled(st, st2, index)
                &&& *final(self) == (App { phase: final(self).phase, ..*old(self) })
            },
            !(old(self).phase is Captcha) ==> *final(self) == *old(self),
    {
        let phase = self.take_phase();
        match phase {
            QuizPhase::Captcha(state) => {
                let mut state = state;
                let selected_count = count_selected_exec(&state.categories);
                if index < state.categories.len() && (state.categories[index].selected || selected_count < MAX_SELECTED_CATEGORIES) {
                    let item = CategoryItem {
                        id: state.categories[index].id,
                        name: state.categories[index].name.clone(),
                        selected: !state.categories[index].selected,
                    };
                    state.categories.set(index, item);
                    state.error = String::new();
                }
                self.phase = QuizPhase::Captcha(state);
            },
            other => {
                self.phase = other;
            },
        }
    }

    /// Checks the captcha form: a category and a code are needed. On
    /// success the chosen category names are taken over for the prompt,
    /// and what is to be stored and sent is handed back.
    pub fn submit_captcha(&mut self) -> (r: Result<CaptchaSubmission, String>)
        ensures
            captcha_outcome(*old(self), *final(self), r),
    {
        let (ids, code, token, names) = match &self.phase {
            QuizPhase::Captcha(state) => {
                let ids = selected_ids(&state.categories);
                let code = string_of(&trim_chars(&chars_of(state.input.as_str())));
                let names = selected_category_names(&state.categories);
                let none_chosen = count_selected_exec(&state.categories) == 0;
                let no_code = code.as_str().unicode_len() == 0;
                if none_chosen || no_code {
                    let message = if none_chosen && no_code {
                        CAPTCHA_NEEDS_BOTH
                    } else if none_chosen {
                        CAPTCHA_NEEDS_CATEGORY
                    } else {
                        CAPTCHA_NEEDS_CODE
                    };
                    return Err(String::from_str(message));
                }
                (ids, code, state.captcha_token.clone(), names)
            },
            _ => {
                return Err(String::from_str(CAPTCHA_NOT_LOADED));
            },
        };
        self.selected_categories = names;
        self.captcha_error = None;
        Ok(CaptchaSubmission { code, token, ids })
    }

    /// After the chosen categories were stored: keeps the form's state for
    /// the next captcha and sends the answer.
    pub fn captcha_submission_saved(&mut self, submission: CaptchaSubmission) -> (effects: Vec<Effect>)
        ensures
            old(self).phase matches QuizPhase::Captcha(st) ==> {
                &&& *final(self) == (App { captcha_preserve: final(self).captcha_preserve, phase: QuizPhase::FetchingQuestion, ..*old(self) })
                &&& final(self).captcha_preserve matches Some(p) && preserves(p, st, submission.code@)
                &&& effects@.len() == 1
                &&& effects@[0] matches Effect::SubmitCaptcha { code, token, ids } && code@ == submission.code@ && token@ == submission.token@ && ids@ == submission.ids@
            },
            !(old(self).phase is Captcha) ==> *final(self) == *old(self) && effects@.len() == 0,
    {
        let phase = self.take_phase();
        match phase {
            QuizPhase::Captcha(state) => {
                let selected = selection_of(&state.categories);
                let code = submission.code.clone();
                self.captcha_preserve = Some((selected, state.cat_focus, state.focus, code));
                self.phase = QuizPhase::FetchingQuestion;
                single(Effect::SubmitCaptcha { code: submission.code, token: submission.token, ids: submission.ids })
            },
            other => {
                self.phase = other;
                Vec::new()
            },
        }
    }

    /// Removes all local data and goes back.
    pub fn reset_all(&mut self, now: i64) -> (effects: Vec<Effect>)
        ensures
            was_reset(*old(self), *final(self), now, effects@),
    {
        let mut effects: Vec<Effect> = Vec::new();
        effects.push(Effect::DeleteOpenAiConfig);
        effects.push(Effect::DeleteAuth);
        effects.push(Effect::DeleteLocalHistory);
        self.config = None;
        self.auth = None;
        effects.push(Effect::ResetClient);
        self.cfg_fields = [String::new(), String::new(), String::new()];
        self.cfg_cursors = [0, 0, 0];
        self.cfg_thinking = true;
        self.cfg_effort = 1;
        self.config_confirm_reset = false;
        self.config_reset_choice = 0;
        self.cfg_preset_open = false;
        self.cfg_preset_sel = 0;
        self.history = Vec::new();
        self.sessions = Vec::new();
        self.active_session = None;
        self.selected_categories = Vec::new();
        let ghost before4 = effects@;
        proof {
            assert(before4 =~= seq![Effect::DeleteOpenAiConfig, Effect::DeleteAuth, Effect::DeleteLocalHistory, Effect::ResetClient]);
        }
        let ghost pre = *self;
        let more = self.back(now);
        proof {
            assert(went_back(pre, *self, now, more@));
            assert(self.history == pre.history);
            assert(self.sessions == pre.sessions);
        }
        add_effects(&mut effects, more);
        proof {
            assert(effects@.take(4) =~= before4);
            assert(effects@.skip(4) =~= more@);
        }
        effects
    }

    /// Logs out and goes back.
    pub fn logout_only(&mut self, now: i64) -> (effects: Vec<Effect>)
        ensures
            logged_out(*old(self), *final(self), now, effects@),
    {
        let mut effects: Vec<Effect> = Vec::new();
        effects.push(Effect::DeleteAuth);
        self.auth = None;
        effects.push(Effect::ResetClient);
        self.config_confirm_reset = false;
        self.config_reset_choice = 0;
        let ghost before2 = effects@;
        proof {
            assert(before2 =~= seq![Effect::DeleteAuth, Effect::ResetClient]);
        }
        let more = self.back(now);
        add_effects(&mut effects, more);
        proof {
            assert(effects@.take(2) =~= before2);
            assert(effects@.skip(2) =~= more@);
        }
        effects
    }
}

/// The selection flags of a list of categories.
pub fn selection_of(cats: &Vec<CategoryItem>) -> (flags: Vec<bool>)
    ensures
        flags@ == selection_flags(cats@),
{
    let mut flags: Vec<bool> = Vec::new();
    let mut i: usize = 0;
    while i < cats.len()
        invariant
            i <= cats@.len(),
            flags@ == selection_flags(cats@.take(i as int)),
        decreases cats@.len() - i,
    {
        flags.push(cats[i].selected);
        proof {
            assert(selection_flags(cats@.take(i + 1)) =~= selection_flags(cats@.take(i as int)).push(cats@[i as int].selected));
        }
        i = i + 1;
    }
    proof {
        assert(cats@.take(cats@.len() as int) =~= cats@);
    }
    flags
}

/// The number of selected categories.
pub fn count_selected_exec(cats: &Vec<CategoryItem>) -> (n: usize)
    ensures
        n == count_selected(cats@),
{
    let mut n: usize = 0;
    let mut i: usize = 0;
    while i < cats.len()
        invariant
            i <= cats@.len(),
            n == count_selected(cats@.take(i as int)),
            n <= i,
        decreases cats@.len() - i,
    {
        proof {
            assert(cats@.take(i + 1).drop_last() =~= cats@.take(i as int));
        }
        if cats[i].selected {
            n = n + 1;
        }
        i = i + 1;
    }
    proof {
        assert(cats@.take(cats@.len() as int) =~= cats@);
    }
    n
}

/// The ids of the selected categories, separated by commas.
pub fn selected_ids(cats: &Vec<CategoryItem>) -> (s: String)
    ensures
        s@ == selected_ids_text(cats@),
{
    let mut s = String::new();
    let ghost mut items: Seq<CategoryItem> = Seq::empty();
    let mut any = false;
    let mut i: usize = 0;
    while i < cats.len()
        invariant
            i <= cats@.len(),
            any == (items.len() > 0),
            items == selected_items(cats@.take(i as int)),
            s@ == crate::config::join_seq(items.map_values(|c: CategoryItem| decimal_int(c.id as int)), ","@),
        decreases cats@.len() - i,
    {
        proof {
            assert(cats@.take(i + 1).drop_last() =~= cats@.take(i as int));
        }
        if cats[i].selected {
            let ghost old_items = items;
            if any {
                push_str(&mut s, ",");
            } else {
                proof {
                    assert(s@ =~= Seq::<char>::empty());
                }
            }
            push_chars(&mut s, &decimal_of_i64(cats[i].id));
            proof {
                items = items.push(cats@[i as int]);
                let f = |c: CategoryItem| decimal_int(c.id as int);
                assert(items.map_values(f).drop_last() =~= old_items.map_values(f));
                if old_items.len() == 0 {
                    assert(s@ =~= items.map_values(f)[0]);
                }
            }
            any = true;
        }
        i = i + 1;
    }
    proof {
        assert(cats@.take(cats@.len() as int) =~= cats@);
    }
    s
}

/// The names of the selected categories.
pub fn selected_category_names(cats: &Vec<CategoryItem>) -> (names: Vec<String>)
    ensures
        texts(names@) == selected_names(cats@),
{
    let mut names: Vec<String> = Vec::new();
    let mut i: usize = 0;
    while i < cats.len()
        invariant
            i <= cats@.len(),
            texts(names@) == selected_names(cats@.take(i as int)),
        decreases cats@.len() - i,
    {
        proof {
            assert(cats@.take(i + 1).drop_last() =~= cats@.take(i as int));
        }
        if cats[i].selected {
            let ghost old_names = names@;
            names.push(cats[i].name.clone());
            proof {
                assert(names@ == old_names.push(cats@[i as int].name));
                assert(texts(names@) =~= texts(old_names).push(cats@[i as int].name@));
                assert(selected_items(cats@.take(i + 1)) == selected_items(cats@.take(i as int)).push(cats@[i as int]));
                assert(texts(names@) =~= selected_names(cats@.take(i + 1)));
            }
        }
        i = i + 1;
    }
    proof {
        assert(cats@.take(cats@.len() as int) =~= cats@);
    }
    names
}

} // verus!
