use bili_hardcore::app::{
    AnswerItem, App, AppEvent, CaptchaFocus, CaptchaState, CategoryItem, Effect, HistoryItem, Page,
    QuizIntent, QuizPhase, ScoreItem, SessionStatus,
};
use bili_hardcore::config::{AuthData, OpenAiConfig, PresetConfig, PresetTemplate};
use bili_hardcore::llm::LlmChunk;
use bili_hardcore::view::{GuiView, HomeAction, Shell};

fn test_app() -> App {
    let mut app = App::new(None, None, None, vec![], vec![], vec![]);
    app.page = Page::Quiz;
    app.phase = QuizPhase::Captcha(CaptchaState {
        categories: (1..=4)
            .map(|id| CategoryItem {
                id,
                name: format!("分类{id}"),
                selected: false,
            })
            .collect(),
        cat_focus: 0,
        captcha_url: "https://example.com/captcha.jpg".into(),
        captcha_token: "token".into(),
        input: String::new(),
        focus: CaptchaFocus::Categories,
        error: String::new(),
    });
    app
}

fn test_config() -> OpenAiConfig {
    OpenAiConfig {
        base_url: "https://example.com".into(),
        model: "test-model".into(),
        api_key: "secret".into(),
        enable_thinking: false,
        reasoning_effort: "high".into(),
        enable_fast_mode: false,
    }
}

fn test_auth() -> AuthData {
    AuthData {
        access_token: "at".into(),
        csrf: "c".into(),
        mid: "12345678".into(),
        cookie: "a=b".into(),
    }
}

#[test]
fn captcha_selection_is_limited_to_three() {
    let mut app = test_app();
    for index in 0..4 {
        app.toggle_captcha_category(index);
    }
    let QuizPhase::Captcha(state) = &app.phase else {
        panic!()
    };
    assert_eq!(
        state.categories.iter().filter(|item| item.selected).count(),
        3
    );
    assert!(!state.categories[3].selected);
}

#[test]
fn captcha_submission_validates_required_values() {
    let mut app = test_app();
    assert_eq!(app.submit_captcha().unwrap_err(), "请选择分类并输入验证码");
    app.toggle_captcha_category(0);
    assert_eq!(app.submit_captcha().unwrap_err(), "请输入验证码");
}

#[test]
fn leaving_quiz_cancels_background_work() {
    let mut app = test_app();
    app.prev_page.push(Page::Home);
    let effects = app.back(0);
    assert!(effects.iter().any(|e| matches!(e, Effect::CancelQuizWork)));
    assert_eq!(app.page, Page::Home);
}

#[test]
fn process_ignores_quiz_events_outside_quiz_page() {
    let mut app = test_app();
    app.page = Page::Home;
    app.process(AppEvent::Fail("ignored".into()), 0);
    assert!(matches!(app.phase, QuizPhase::Captcha(_)));
}

#[test]
fn level_events_keep_contextual_states() {
    let mut app = test_app();
    app.process(AppEvent::LevelOk(6), 0);
    assert!(matches!(
        app.phase,
        QuizPhase::LevelVerified { level: 6, .. }
    ));
    app.process(AppEvent::LevelFail(5), 0);
    assert!(matches!(
        app.phase,
        QuizPhase::LevelInsufficient { level: 5 }
    ));
    app.process(AppEvent::LevelCheckFailed("网络超时".into()), 0);
    assert!(matches!(app.phase, QuizPhase::LevelCheckFailed(_)));
}

#[test]
fn login_only_flow_does_not_require_model_configuration() {
    let mut app = test_app();
    app.page = Page::Home;
    app.prev_page.clear();
    app.auth = None;
    app.config = None;

    app.enter_login();

    assert_eq!(app.page, Page::Quiz);
    assert_eq!(app.quiz_intent, QuizIntent::LoginOnly);
    assert!(matches!(app.phase, QuizPhase::LoggingIn));
}

#[test]
fn login_only_level_success_returns_home_without_fetching_questions() {
    let mut app = test_app();
    app.page = Page::Quiz;
    app.prev_page = vec![Page::Home];
    app.quiz_intent = QuizIntent::LoginOnly;
    app.phase = QuizPhase::LevelVerified {
        level: 6,
        countdown: 1,
    };

    app.tick(0, false);

    assert_eq!(app.page, Page::Home);
    assert!(!matches!(app.phase, QuizPhase::FetchingQuestion));
}

#[test]
fn quiz_done_finalizes_session() {
    let mut app = test_app();
    app.config = Some(test_config());
    app.question_num = 1;
    app.question_text = "测试题目".into();
    app.answers = vec![AnswerItem {
        text: "答案".into(),
        hash: "hash".into(),
    }];
    app.chosen_answer_idx = 1;
    app.ensure_active_session(0);
    app.record_session_question(true, 0);
    app.process(
        AppEvent::QuizDone {
            score: 80,
            scores: vec![],
        },
        0,
    );
    assert_eq!(app.sessions[0].status, SessionStatus::Passed);
    assert_eq!(app.sessions[0].completed_questions, 1);
    assert!(app.sessions[0].finished_at.is_some());
}

#[test]
fn leaving_quiz_records_meaningful_interruption() {
    let mut app = test_app();
    app.question_num = 1;
    app.question_text = "测试题目".into();
    app.answers = vec![AnswerItem {
        text: "答案".into(),
        hash: "hash".into(),
    }];
    app.chosen_answer_idx = 1;
    app.ensure_active_session(0);
    app.record_session_question(false, 0);
    app.prev_page.push(Page::Home);
    app.back(0);
    assert_eq!(app.sessions[0].status, SessionStatus::Interrupted);
    assert_eq!(app.sessions[0].failure_stage.as_deref(), Some("quiz_exit"));
}

#[test]
fn new_state_takes_the_command_line_configuration_first() {
    let mut stored = test_config();
    stored.model = "stored".into();
    let mut cli = test_config();
    cli.model = "cli".into();
    cli.reasoning_effort = "max".into();
    let app = App::new(Some(cli), Some(stored), None, vec![], vec![], vec!["动画".into()]);
    assert_eq!(app.cfg_fields[1], "cli");
    assert_eq!(app.cfg_cursors[1], 3);
    assert_eq!(app.cfg_effort, 2);
    assert!(!app.cfg_thinking);
    assert_eq!(app.selected_categories, vec!["动画".to_string()]);
    let app = App::new(None, None, None, vec![], vec![], vec![]);
    assert!(app.cfg_thinking);
    assert_eq!(app.cfg_effort, 1);
    assert_eq!(app.page, Page::Home);
}

#[test]
fn unknown_effort_reads_as_high() {
    let mut cfg = test_config();
    cfg.reasoning_effort = "extreme".into();
    let app = App::new(None, Some(cfg), None, vec![], vec![], vec![]);
    assert_eq!(app.cfg_effort, 1);
    let mut cfg = test_config();
    cfg.reasoning_effort = "low".into();
    let app = App::new(None, Some(cfg), None, vec![], vec![], vec![]);
    assert_eq!(app.cfg_effort, 0);
}

#[test]
fn spinner_cycles_through_ten_frames() {
    let mut app = test_app();
    let first = app.spin_char();
    assert_eq!(first, '⠋');
    for _ in 0..10 {
        app.tick(0, false);
    }
    assert_eq!(app.spinner, 0);
    app.tick(0, false);
    assert_eq!(app.spin_char(), '⠙');
}

#[test]
fn going_somewhere_and_back_returns() {
    let mut app = App::new(None, None, None, vec![], vec![], vec![]);
    let effects = app.go(Page::Config);
    assert!(effects.is_empty());
    assert_eq!(app.page, Page::Config);
    let effects = app.back(0);
    assert!(effects.is_empty());
    assert_eq!(app.page, Page::Home);
    assert!(app.prev_page.is_empty());
}

#[test]
fn opening_the_quiz_starts_a_new_cancellation_scope() {
    let mut app = App::new(None, None, None, vec![], vec![], vec![]);
    let effects = app.enter_quiz();
    assert!(matches!(effects[0], Effect::NewQuizToken));
    assert!(matches!(app.phase, QuizPhase::NotConfigured));
    app.back(0);
    app.config = Some(test_config());
    app.auth = Some(test_auth());
    let effects = app.enter_quiz();
    assert!(matches!(effects[1], Effect::CheckLevel));
    assert!(matches!(app.phase, QuizPhase::CheckingLevel));
}

#[test]
fn relogin_forgets_the_account() {
    let mut app = test_app();
    app.auth = Some(test_auth());
    let effects = app.relogin_for_quiz();
    assert!(app.auth.is_none());
    assert!(matches!(app.phase, QuizPhase::LoggingIn));
    assert!(matches!(effects[0], Effect::DeleteAuth));
    assert!(matches!(effects[1], Effect::ResetClient));
    assert!(matches!(effects[2], Effect::FetchLoginQr));
}

#[test]
fn retry_level_check_without_account_logs_in() {
    let mut app = test_app();
    let effects = app.retry_level_check();
    assert!(matches!(effects[0], Effect::FetchLoginQr));
    app.auth = Some(test_auth());
    let effects = app.retry_level_check();
    assert!(matches!(effects[0], Effect::CheckLevel));
    assert!(matches!(app.phase, QuizPhase::CheckingLevel));
}

#[test]
fn captcha_submission_succeeds_with_category_and_code() {
    let mut app = test_app();
    app.toggle_captcha_category(1);
    app.toggle_captcha_category(3);
    if let QuizPhase::Captcha(state) = &mut app.phase {
        state.input = "  ab12 ".into();
    }
    let submission = app.submit_captcha().unwrap();
    assert_eq!(submission.ids, "2,4");
    assert_eq!(submission.code, "ab12");
    assert_eq!(submission.token, "token");
    assert_eq!(app.selected_categories, vec!["分类2".to_string(), "分类4".to_string()]);
    let effects = app.captcha_submission_saved(submission);
    assert!(matches!(app.phase, QuizPhase::FetchingQuestion));
    match &effects[0] {
        Effect::SubmitCaptcha { code, token, ids } => {
            assert_eq!(code, "ab12");
            assert_eq!(token, "token");
            assert_eq!(ids, "2,4");
        }
        other => panic!("unexpected {other:?}"),
    }
    let (flags, _, _, input) = app.captcha_preserve.clone().unwrap();
    assert_eq!(flags, vec![false, true, false, true]);
    assert_eq!(input, "ab12");
}

#[test]
fn captcha_submission_needs_a_category() {
    let mut app = test_app();
    if let QuizPhase::Captcha(state) = &mut app.phase {
        state.input = "code".into();
    }
    assert_eq!(app.submit_captcha().unwrap_err(), "请选择分类");
    app.phase = QuizPhase::FetchingQuestion;
    assert_eq!(app.submit_captcha().unwrap_err(), "验证码尚未加载");
}

#[test]
fn toggling_twice_restores_and_clears_the_error() {
    let mut app = test_app();
    if let QuizPhase::Captcha(state) = &mut app.phase {
        state.error = "旧错误".into();
    }
    app.toggle_captcha_category(2);
    app.toggle_captcha_category(2);
    let QuizPhase::Captcha(state) = &app.phase else {
        panic!()
    };
    assert!(state.categories.iter().all(|c| !c.selected));
    assert!(state.error.is_empty());
    app.toggle_captcha_category(9);
}

#[test]
fn refreshing_the_captcha_keeps_the_choices() {
    let mut app = test_app();
    app.toggle_captcha_category(0);
    let effects = app.refresh_captcha();
    assert!(matches!(effects[0], Effect::ClearCaptchaImage));
    assert!(matches!(effects[1], Effect::FetchCaptcha));
    let effects = app.process(
        AppEvent::CaptchaData {
            categories: vec![
                CategoryItem { id: 7, name: "A".into(), selected: false },
                CategoryItem { id: 8, name: "B".into(), selected: false },
            ],
            url: "u".into(),
            token: "t2".into(),
            image_bytes: None,
        },
        0,
    );
    assert!(matches!(effects[0], Effect::ShowCaptchaImage(None)));
    let QuizPhase::Captcha(state) = &app.phase else {
        panic!()
    };
    assert!(state.categories[0].selected);
    assert!(!state.categories[1].selected);
    assert_eq!(state.captcha_token, "t2");
    assert!(app.captcha_preserve.is_none());
}

#[test]
fn wrong_captcha_clears_the_code_and_shows_an_error() {
    let mut app = test_app();
    app.captcha_preserve = Some((vec![true], 0, CaptchaFocus::Input, "abcd".into()));
    let effects = app.process(AppEvent::CaptchaRejected, 0);
    assert!(matches!(effects[0], Effect::FetchCaptcha));
    assert_eq!(app.captcha_error.as_deref(), Some("验证码错误，请重新输入"));
    let (flags, _, focus, input) = app.captcha_preserve.clone().unwrap();
    assert_eq!(flags, vec![true]);
    assert_eq!(focus, CaptchaFocus::Input);
    assert!(input.is_empty());
    app.process(
        AppEvent::CaptchaData { categories: vec![], url: "u".into(), token: "t".into(), image_bytes: None },
        0,
    );
    let QuizPhase::Captcha(state) = &app.phase else {
        panic!()
    };
    assert_eq!(state.error, "验证码错误，请重新输入");
}

#[test]
fn a_question_opens_a_session_and_asks_the_model() {
    let mut app = test_app();
    app.config = Some(test_config());
    app.selected_categories = vec!["知识".into()];
    let effects = app.process(
        AppEvent::QuestionReady {
            num: 3,
            question: "问题".into(),
            answers: vec![
                AnswerItem { text: "甲".into(), hash: "h1".into() },
                AnswerItem { text: "乙".into(), hash: "h2".into() },
            ],
            id: 42,
        },
        1_700_000_000,
    );
    assert!(matches!(app.phase, QuizPhase::WaitingLlm));
    let session = app.active_session.as_ref().unwrap();
    assert_eq!(session.id, "1700000000-1");
    assert_eq!(session.model, "test-model");
    assert_eq!(session.categories, vec!["知识".to_string()]);
    match &effects[0] {
        Effect::AskLlm { question, categories, .. } => {
            assert_eq!(question, "题目:问题\n答案:[\"甲\", \"乙\"]");
            assert_eq!(categories, &vec!["知识".to_string()]);
        }
        other => panic!("unexpected {other:?}"),
    }
}

#[test]
fn no_model_means_no_request() {
    let mut app = test_app();
    let effects = app.process(
        AppEvent::QuestionReady { num: 1, question: "q".into(), answers: vec![], id: 1 },
        5,
    );
    assert!(effects.is_empty());
    assert_eq!(app.active_session.as_ref().unwrap().model, "未记录");
}

#[test]
fn a_readable_answer_is_submitted() {
    let mut app = test_app();
    app.question_id = 9;
    app.answers = vec![
        AnswerItem { text: "甲".into(), hash: "h1".into() },
        AnswerItem { text: "乙".into(), hash: "h2".into() },
    ];
    app.process(AppEvent::LlmChunk(LlmChunk::Thinking("想".into())), 0);
    app.process(AppEvent::LlmChunk(LlmChunk::Content("回答：".into())), 0);
    assert_eq!(app.thinking_text, "想");
    assert_eq!(app.answer_text, "回答：");
    let effects = app.process(AppEvent::LlmChunk(LlmChunk::Done("回答：2".into())), 0);
    assert_eq!(app.chosen_answer_idx, 2);
    assert!(matches!(app.phase, QuizPhase::Submitting));
    match &effects[0] {
        Effect::SubmitAnswer { question_id, hash, text } => {
            assert_eq!(*question_id, 9);
            assert_eq!(hash, "h2");
            assert_eq!(text, "乙");
        }
        other => panic!("unexpected {other:?}"),
    }
    let effects = app.process(AppEvent::LlmChunk(LlmChunk::Done("4".into())), 0);
    assert!(effects.is_empty());
}

#[test]
fn an_unreadable_answer_is_retried_with_growing_delays() {
    let mut app = test_app();
    let effects = app.process(AppEvent::LlmChunk(LlmChunk::Done("不知道".into())), 0);
    let reason = match &effects[0] {
        Effect::QueueLlmRetry { reason } => reason.clone(),
        other => panic!("unexpected {other:?}"),
    };
    assert_eq!(reason, "AI 回复无法解析: 不知道");
    let mut delays = vec![];
    for _ in 0..3 {
        let effects = app.process(AppEvent::LlmRetry { reason: reason.clone() }, 0);
        match &effects[0] {
            Effect::ScheduleLlmRetry { secs } => delays.push(*secs),
            other => panic!("unexpected {other:?}"),
        }
        assert!(matches!(app.phase, QuizPhase::WaitingRetry { .. }));
    }
    assert_eq!(delays, vec![2, 4, 8]);
    let effects = app.process(AppEvent::LlmRetry { reason: "r".into() }, 0);
    assert!(effects.is_empty());
    match &app.phase {
        QuizPhase::Error(message) => assert_eq!(message, "AI 回答错误: r（已重试 3 次）"),
        other => panic!("unexpected {other:?}"),
    }
}

#[test]
fn a_retry_fires_only_while_waiting() {
    let mut app = test_app();
    app.config = Some(test_config());
    let effects = app.process(AppEvent::LlmRetryFire, 0);
    assert!(effects.is_empty());
    assert!(matches!(app.phase, QuizPhase::Captcha(_)));
    app.phase = QuizPhase::WaitingRetry { attempt: 1, delay_secs: 2 };
    let effects = app.process(AppEvent::LlmRetryFire, 0);
    assert!(matches!(effects[0], Effect::AskLlm { .. }));
    assert!(matches!(app.phase, QuizPhase::WaitingLlm));
}

#[test]
fn a_failed_model_request_is_not_retried() {
    let mut app = test_app();
    let effects = app.process(AppEvent::LlmChunk(LlmChunk::Error("timeout".into())), 0);
    assert!(effects.is_empty());
    match &app.phase {
        QuizPhase::Error(message) => {
            assert_eq!(message, "AI 请求失败: timeout（为避免重复计费，未自动重试）")
        }
        other => panic!("unexpected {other:?}"),
    }
}

#[test]
fn a_rising_score_marks_the_answer_correct() {
    let mut app = test_app();
    app.score = 3;
    app.process(AppEvent::SubmitOk { score: 4 }, 0);
    assert!(matches!(app.phase, QuizPhase::ShowingResult { correct: true, countdown: 10 }));
    app.cfg_fast_mode = true;
    app.process(AppEvent::SubmitOk { score: 4 }, 0);
    assert!(matches!(app.phase, QuizPhase::ShowingResult { correct: false, countdown: 1 }));
}

#[test]
fn the_result_countdown_moves_to_the_next_question() {
    let mut app = test_app();
    app.question_num = 5;
    app.question_text = "q".into();
    app.answers = vec![AnswerItem { text: "a".into(), hash: "h".into() }];
    app.chosen_answer_idx = 1;
    app.phase = QuizPhase::ShowingResult { correct: true, countdown: 2 };
    let effects = app.tick(10, false);
    assert!(effects.is_empty());
    assert!(matches!(app.phase, QuizPhase::ShowingResult { countdown: 1, .. }));
    let effects = app.tick(11, false);
    assert!(matches!(effects[0], Effect::SaveHistory));
    assert!(matches!(effects[1], Effect::FetchQuestion));
    assert!(matches!(app.phase, QuizPhase::FetchingQuestion));
    assert_eq!(app.history.len(), 1);
    assert_eq!(app.history[0].options, vec!["a".to_string()]);
    let session = app.active_session.as_ref().unwrap();
    assert_eq!(session.questions.len(), 1);
    assert_eq!(session.updated_at, 11);
}

#[test]
fn the_hundredth_question_fetches_the_final_result() {
    let mut app = test_app();
    app.question_num = 100;
    app.phase = QuizPhase::ShowingResult { correct: false, countdown: 1 };
    let effects = app.tick(0, false);
    assert!(matches!(effects[1], Effect::FetchFinalResult));
    assert!(matches!(app.phase, QuizPhase::Submitting));
}

#[test]
fn a_cancelled_quiz_only_moves_the_spinner() {
    let mut app = test_app();
    app.phase = QuizPhase::ShowingResult { correct: false, countdown: 1 };
    let effects = app.tick(0, true);
    assert!(effects.is_empty());
    assert_eq!(app.spinner, 1);
    assert!(matches!(app.phase, QuizPhase::ShowingResult { .. }));
}

#[test]
fn a_verified_level_resumes_with_the_recorded_score() {
    let mut app = test_app();
    for (num, correct) in [(1, true), (2, false), (3, true)] {
        app.history.push(HistoryItem {
            num,
            question: "q".into(),
            options: vec![],
            chosen_idx: 1,
            correct,
            correct_idx: None,
        });
    }
    app.phase = QuizPhase::LevelVerified { level: 6, countdown: 1 };
    let effects = app.tick(0, false);
    assert_eq!(app.score, 2);
    assert!(matches!(effects[0], Effect::FetchQuestion));
}

#[test]
fn the_login_qr_is_polled_every_ten_ticks_and_expires() {
    let mut app = test_app();
    app.process(
        AppEvent::QrReady { url: "u".into(), qr: "q".into(), auth_code: "code".into() },
        0,
    );
    assert!(matches!(app.phase, QuizPhase::WaitingScan { countdown: 60, .. }));
    for _ in 0..9 {
        assert!(app.tick(0, false).is_empty());
    }
    let effects = app.tick(0, false);
    match &effects[0] {
        Effect::PollQr(code) => assert_eq!(code, "code"),
        other => panic!("unexpected {other:?}"),
    }
    assert!(matches!(app.phase, QuizPhase::WaitingScan { countdown: 59, .. }));
    app.phase = QuizPhase::WaitingScan { url: "u".into(), qr: "q".into(), auth_code: "c".into(), countdown: 0 };
    app.tick(0, false);
    assert!(matches!(app.phase, QuizPhase::LoginTimeout { retry: true }));
}

#[test]
fn a_login_checks_the_level() {
    let mut app = test_app();
    app.qr_auth_code = Some("x".into());
    let effects = app.process(AppEvent::LoginOk(test_auth()), 0);
    assert!(matches!(effects[0], Effect::SetClientAuth(_)));
    assert!(matches!(effects[1], Effect::CheckLevel));
    assert!(app.qr_auth_code.is_none());
    assert_eq!(app.auth.as_ref().unwrap().mid, "12345678");
    let effects = app.process(AppEvent::TicketReady("t".into()), 0);
    assert!(matches!(&effects[0], Effect::SetClientTicket(t) if t == "t"));
}

#[test]
fn a_captcha_request_clears_the_old_history() {
    let mut app = test_app();
    let effects = app.process(AppEvent::NeedCaptcha, 0);
    assert_eq!(effects.len(), 1);
    app.history.push(HistoryItem {
        num: 1,
        question: "q".into(),
        options: vec![],
        chosen_idx: 1,
        correct: true,
        correct_idx: None,
    });
    let effects = app.process(AppEvent::NeedCaptcha, 0);
    assert!(matches!(effects[0], Effect::SaveHistory));
    assert!(app.history.is_empty());
}

#[test]
fn a_failure_before_any_answer_keeps_no_session() {
    let mut app = test_app();
    app.ensure_active_session(0);
    let effects = app.process(AppEvent::Fail("boom".into()), 0);
    assert!(effects.is_empty());
    assert!(app.sessions.is_empty());
    assert!(app.active_session.is_none());
    assert!(matches!(&app.phase, QuizPhase::Error(m) if m == "boom"));
}

#[test]
fn a_failed_submission_keeps_the_session_with_a_redacted_message() {
    let mut app = test_app();
    app.question_num = 1;
    app.record_session_question(true, 0);
    let effects = app.process(AppEvent::SubmitFail("bad Token here".into()), 7);
    assert!(matches!(effects[0], Effect::SaveSessions));
    let session = &app.sessions[0];
    assert_eq!(session.failure_stage.as_deref(), Some("answer_submit"));
    assert_eq!(session.failure_message.as_deref(), Some("请求失败，敏感信息已隐藏"));
    assert_eq!(session.finished_at, Some(7));
}

#[test]
fn a_low_final_score_fails() {
    let mut app = test_app();
    app.record_session_question(true, 0);
    app.process(
        AppEvent::QuizDone {
            score: 59,
            scores: vec![ScoreItem { category: "A".into(), score: 30, total: 50 }],
        },
        0,
    );
    assert_eq!(app.sessions[0].status, SessionStatus::Failed);
    assert_eq!(app.sessions[0].category_scores.len(), 1);
    assert!(matches!(&app.phase, QuizPhase::Finished { score: 59, .. }));
}

#[test]
fn recording_a_question_twice_keeps_one_record() {
    let mut app = test_app();
    app.question_num = 4;
    app.record_session_question(true, 0);
    app.score = 1;
    app.record_session_question(false, 1);
    let session = app.active_session.as_ref().unwrap();
    assert_eq!(session.questions.len(), 1);
    assert_eq!(session.completed_questions, 1);
    assert_eq!(session.score, 1);
    assert!(session.questions[0].correct);
}

#[test]
fn settings_form_validates_and_builds_the_configuration() {
    let mut app = App::new(None, None, None, vec![], vec![], vec![]);
    assert_eq!(
        app.persist_config().unwrap_err(),
        "请完整填写 API URL、模型名称和 API Key"
    );
    app.cfg_fields = ["ftp://x".into(), "m".into(), "k".into()];
    assert_eq!(
        app.persist_config().unwrap_err(),
        "API URL 必须以 http:// 或 https:// 开头"
    );
    app.cfg_fields = [" https://api.example.com/v1/// ".into(), " m ".into(), "k".into()];
    app.cfg_effort = 2;
    let cfg = app.persist_config().unwrap();
    assert_eq!(cfg.base_url, "https://api.example.com/v1");
    assert_eq!(cfg.model, "m");
    assert_eq!(cfg.reasoning_effort, "max");
    app.config_saved(cfg);
    assert!(app.config.is_some());
    app.cfg_fields = ["///".into(), "m".into(), "k".into()];
    assert!(app.persist_config().is_err());
}

#[test]
fn the_settings_page_opens_with_the_configuration() {
    let mut app = App::new(None, None, None, vec![], vec![], vec![]);
    app.enter_config();
    assert!(app.cfg_preset_open);
    assert_eq!(app.page, Page::Config);
    app.back(0);
    app.config = Some(test_config());
    app.enter_config();
    assert!(!app.cfg_preset_open);
    assert_eq!(app.cfg_fields[0], "https://example.com");
    assert_eq!(app.cfg_cursors[0], "https://example.com".len());
}

#[test]
fn a_preset_fills_endpoint_and_model() {
    let mut app = App::new(None, None, None, vec![], vec![], vec![]);
    app.cfg_fields[2] = "key".into();
    let presets = vec![PresetTemplate {
        provider: "grok".into(),
        provider_name: "Grok (xAI)".into(),
        config: PresetConfig {
            base_url: "https://api.x.ai/v1/chat/completions".into(),
            model: "grok-4".into(),
        },
    }];
    app.apply_preset(&presets, 3);
    assert!(app.cfg_fields[0].is_empty());
    app.apply_preset(&presets, 0);
    assert_eq!(app.cfg_fields[0], "https://api.x.ai/v1/chat/completions");
    assert_eq!(app.cfg_fields[1], "grok-4");
    assert_eq!(app.cfg_fields[2], "key");
    assert_eq!(app.cfg_cursors[1], 6);
}

#[test]
fn saving_the_configuration_from_the_quiz_starts_the_login() {
    let mut app = App::new(None, None, None, vec![], vec![], vec![]);
    app.go(Page::Quiz);
    app.go(Page::Config);
    let effects = app.save_config(0);
    assert_eq!(app.page, Page::Quiz);
    assert!(matches!(effects.last(), Some(Effect::FetchLoginQr)));
}

#[test]
fn reset_removes_everything() {
    let mut app = test_app();
    app.page = Page::Config;
    app.prev_page = vec![Page::Home];
    app.config = Some(test_config());
    app.auth = Some(test_auth());
    app.selected_categories = vec!["x".into()];
    app.cfg_effort = 2;
    let effects = app.reset_all(0);
    assert!(matches!(effects[0], Effect::DeleteOpenAiConfig));
    assert!(matches!(effects[1], Effect::DeleteAuth));
    assert!(matches!(effects[2], Effect::DeleteLocalHistory));
    assert!(matches!(effects[3], Effect::ResetClient));
    assert_eq!(effects.len(), 4);
    assert!(app.config.is_none() && app.auth.is_none());
    assert!(app.selected_categories.is_empty());
    assert_eq!(app.cfg_effort, 1);
    assert_eq!(app.page, Page::Home);
}

#[test]
fn logout_keeps_the_model() {
    let mut app = test_app();
    app.page = Page::Config;
    app.prev_page = vec![Page::Home];
    app.config = Some(test_config());
    app.auth = Some(test_auth());
    app.config_confirm_reset = true;
    let effects = app.logout_only(0);
    assert!(matches!(effects[0], Effect::DeleteAuth));
    assert!(app.auth.is_none());
    assert!(app.config.is_some());
    assert!(!app.config_confirm_reset);
    assert_eq!(app.page, Page::Home);
}

#[test]
fn the_background_requests_are_named_by_effects() {
    let app = test_app();
    assert!(matches!(app.spawn_fetch_question().as_slice(), [Effect::FetchQuestion]));
    assert!(matches!(app.spawn_fetch_captcha().as_slice(), [Effect::FetchCaptcha]));
    match app.spawn_captcha_submit("abcd", "tok", "1,2").as_slice() {
        [Effect::SubmitCaptcha { code, token, ids }] => {
            assert_eq!(code, "abcd");
            assert_eq!(token, "tok");
            assert_eq!(ids, "1,2");
        }
        _ => panic!("expected one captcha submission"),
    }
}

#[test]
fn leaving_the_result_goes_home_or_to_the_details() {
    let mut app = test_app();
    app.prev_page = vec![Page::Home];
    app.phase = QuizPhase::Finished { score: 80, scores: vec![] };
    let mut shell = Shell { view: GuiView::Home, selected_session: None, exit_quiz_confirm: false, logout_confirm: false };
    let effects = shell.leave_finished(&mut app, 100, true);
    assert_eq!(app.page, Page::Home);
    assert_eq!(shell.view, GuiView::HistoryDetail);
    assert_eq!(shell.selected_session, Some(0));
    assert!(matches!(effects.last(), Some(Effect::CancelQuizWork)));
}

#[test]
fn confirming_the_exit_closes_the_quiz() {
    let mut app = test_app();
    app.prev_page = vec![Page::Home];
    let mut shell = Shell { view: GuiView::History, selected_session: None, exit_quiz_confirm: true, logout_confirm: false };
    let effects = shell.confirm_exit_quiz(&mut app, 100);
    assert_eq!(app.page, Page::Home);
    assert!(!shell.exit_quiz_confirm);
    assert_eq!(shell.view, GuiView::Home);
    assert!(matches!(effects.last(), Some(Effect::CancelQuizWork)));
}

#[test]
fn the_home_buttons_open_the_quiz_or_the_settings() {
    let mut app = App::new(None, None, None, vec![], vec![], vec![]);
    let effects = app.perform_home_action(HomeAction::Login);
    assert_eq!(app.page, Page::Quiz);
    assert_eq!(app.quiz_intent, QuizIntent::LoginOnly);
    assert!(matches!(app.phase, QuizPhase::LoggingIn));
    assert!(matches!(effects.as_slice(), [Effect::NewQuizToken, Effect::FetchLoginQr]));
    let mut app = App::new(Some(test_config()), None, Some(test_auth()), vec![], vec![], vec![]);
    let effects = app.perform_home_action(HomeAction::StartQuiz);
    assert_eq!(app.quiz_intent, QuizIntent::Answer);
    assert!(matches!(app.phase, QuizPhase::CheckingLevel));
    assert!(matches!(effects.as_slice(), [Effect::NewQuizToken, Effect::CheckLevel]));
    let mut app = App::new(None, None, Some(test_auth()), vec![], vec![], vec![]);
    let effects = app.perform_home_action(HomeAction::ConfigureModel);
    assert_eq!(app.page, Page::Config);
    assert!(effects.is_empty());
}
