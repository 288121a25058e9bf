use bili_hardcore::answer::{parse_answer, redact_error, REDACTED_MESSAGE};
use bili_hardcore::app::{AppEvent, HistoryItem, Page, QuestionHistory, QuizPhase, SessionHistory, SessionStatus};
use bili_hardcore::config::{
    auth_is_fresh, auth_path, build_quiz_prompt, categories_path, config_dir, default_reasoning_effort,
    history_path, openai_config_path, sessions_path, OpenAiConfig, PresetConfig, PresetTemplate,
    NO_THINKING_NOTE, PROMPT_DIVIDER, PROMPT_OPENING, PROMPT_RULES,
};
use bili_hardcore::llm::{
    api_dialect, build_request_body, http_failure_message, question_for_model, ApiDialect, LlmChunk,
    OpenAiClient, StreamDecoder,
};
use bili_hardcore::qr::{make_qr, qr_browser_url, qr_image, QR_FAILED};
use bili_hardcore::replies::{
    answers_from, categories_from, final_result_event, level_event, login_poll_event, qr_failed_event,
    qr_ready_event, question_event, submit_outcome, submit_result_event, ticket_failed_event, RawAnswer,
    RawCategory, RawCookie, RawScore,
};
use bili_hardcore::session::is_passing;
use bili_hardcore::view::{
    accuracy, answer_mark, average_score, categories_label, category_clickable, chosen_option,
    divide_toward_zero, effort_hint, format_time, is_answering, is_busy, masked_uid, option_letter,
    passed_count, phase_label, retry_notice, selected_preset, session_status_label, session_summary_line,
    submitted_answer_text, GuiView, Shell,
};

fn s(t: &str) -> String {
    t.to_string()
}

#[test]
fn detects_api_dialect_by_exact_host() {
    assert_eq!(api_dialect("https://api.openai.com/v1/chat/completions"), ApiDialect::OpenAi);
    assert_eq!(api_dialect("https://API.OPENAI.COM:443/v1/chat/completions"), ApiDialect::OpenAi);
    assert_eq!(api_dialect("https://api.x.ai/v1/chat/completions"), ApiDialect::XAi);
    assert_eq!(api_dialect("https://API.X.AI:443/v1/chat/completions"), ApiDialect::XAi);
    assert_eq!(api_dialect("https://api.openai.com.example/v1/chat/completions"), ApiDialect::Extended);
    assert_eq!(api_dialect("https://api.x.ai.example/v1/chat/completions"), ApiDialect::Extended);
    assert_eq!(api_dialect("not a url"), ApiDialect::Extended);
}

#[test]
fn openai_body_only_adds_reasoning_effort() {
    let body = build_request_body(ApiDialect::OpenAi, "gpt-test", "question", true, "high");

    assert_eq!(body.model, "gpt-test");
    assert_eq!(body.stream, true);
    assert_eq!(body.messages[0].content, "question");
    assert_eq!(body.reasoning_effort.as_deref(), Some("high"));
    assert!(body.enable_thinking.is_none());
    assert!(body.thinking.is_none());
}

#[test]
fn xai_body_omits_all_thinking_fields() {
    let body = build_request_body(ApiDialect::XAi, "grok-test", "question", true, "max");

    assert_eq!(body.model, "grok-test");
    assert_eq!(body.stream, true);
    assert_eq!(body.messages[0].content, "question");
    assert!(body.enable_thinking.is_none());
    assert!(body.thinking.is_none());
    assert!(body.reasoning_effort.is_none());
}

#[test]
fn extended_body_keeps_existing_thinking_fields() {
    let body = build_request_body(ApiDialect::Extended, "extended-test", "question", false, "max");

    assert_eq!(body.model, "extended-test");
    assert_eq!(body.stream, true);
    assert_eq!(body.messages[0].content, "question");
    assert_eq!(body.enable_thinking, Some(false));
    assert_eq!(body.thinking.as_ref().map(|t| t.kind.as_str()), Some("disabled"));
    assert_eq!(body.reasoning_effort.as_deref(), Some("none"));
}

#[test]
fn extended_body_with_thinking_sends_the_effort() {
    let body = build_request_body(ApiDialect::Extended, "m", "q", true, "low");
    assert_eq!(body.messages.len(), 1);
    assert_eq!(body.messages[0].role, "user");
    assert_eq!(body.enable_thinking, Some(true));
    assert_eq!(body.thinking.as_ref().map(|t| t.kind.as_str()), Some("enabled"));
    assert_eq!(body.reasoning_effort.as_deref(), Some("low"));
}

#[test]
fn openai_body_without_thinking_sends_none() {
    let body = build_request_body(ApiDialect::OpenAi, "m", "q", false, "max");
    assert_eq!(body.reasoning_effort.as_deref(), Some("none"));
}

#[test]
fn qr_texture_is_square_and_nonempty() {
    let image = qr_image("https://example.com").unwrap();
    assert_eq!(image.width, image.height);
    assert!(image.dark.contains(&true));
    assert_eq!(image.dark.len(), image.width * image.height);
    assert!(!image.dark[0]);
    let top_left_module = 24 * image.width + 24;
    assert!(image.dark[top_left_module]);
}

#[test]
fn qr_text_is_drawn_for_a_url() {
    let text = make_qr("https://example.com");
    assert_ne!(text, QR_FAILED);
    assert!(text.lines().count() > 5);
}

#[test]
fn a_number_alone_is_the_answer() {
    assert_eq!(parse_answer(" 3 \n"), Some(3));
    assert_eq!(parse_answer("4"), Some(4));
}

#[test]
fn an_answer_after_the_prefix_is_read() {
    assert_eq!(parse_answer("回答：2"), Some(2));
    assert_eq!(parse_answer("回答: 1"), Some(1));
}

#[test]
fn the_first_digit_from_one_to_four_is_taken() {
    assert_eq!(parse_answer("选项 0 不对，应该是 3，不是 2"), Some(3));
    assert_eq!(parse_answer("59 then 2"), Some(2));
}

#[test]
fn no_digit_means_no_answer() {
    assert_eq!(parse_answer("不知道"), None);
    assert_eq!(parse_answer("5 6 7 8 9 0"), None);
    assert_eq!(parse_answer(""), None);
}

#[test]
fn secrets_in_errors_are_hidden() {
    assert_eq!(redact_error("invalid API Key sk-123"), REDACTED_MESSAGE);
    assert_eq!(redact_error("bad TOKEN"), REDACTED_MESSAGE);
    assert_eq!(redact_error("Cookie expired"), REDACTED_MESSAGE);
}

#[test]
fn other_errors_are_kept_and_shortened() {
    assert_eq!(redact_error("网络超时"), "网络超时");
    let long: String = std::iter::repeat('错').take(300).collect();
    let kept = redact_error(&long);
    assert_eq!(kept.chars().count(), 240);
    assert!(kept.chars().all(|c| c == '错'));
}

#[test]
fn the_prompt_names_the_categories_and_the_question() {
    let cats = vec![s("动画"), s("游戏")];
    let p = build_quiz_prompt(&cats, "题目", true);
    let expected = format!("{}动画、游戏{}{}题目", PROMPT_OPENING, PROMPT_RULES, PROMPT_DIVIDER);
    assert_eq!(p, expected);
}

#[test]
fn the_prompt_without_categories_says_unknown_and_asks_not_to_think() {
    let p = build_quiz_prompt(&vec![], "Q", false);
    let expected = format!("{}未知{}{}{}Q", PROMPT_OPENING, PROMPT_RULES, PROMPT_DIVIDER, NO_THINKING_NOTE);
    assert_eq!(p, expected);
}

#[test]
fn stored_files_live_in_the_hidden_directory() {
    assert_eq!(config_dir("/home/u", '/'), "/home/u/.bili-hardcore");
    assert_eq!(openai_config_path("/home/u", '/'), "/home/u/.bili-hardcore/openai_config.json");
    assert_eq!(auth_path("/home/u", '/'), "/home/u/.bili-hardcore/auth.json");
    assert_eq!(categories_path("/home/u", '/'), "/home/u/.bili-hardcore/categories.json");
    assert_eq!(history_path("/home/u", '/'), "/home/u/.bili-hardcore/history.json");
    assert_eq!(sessions_path("/home/u", '/'), "/home/u/.bili-hardcore/sessions.json");
    assert_eq!(config_dir("/", '/'), "/.bili-hardcore");
    assert_eq!(config_dir("", '/'), ".bili-hardcore");
}

#[test]
fn windows_paths_are_joined_with_backslashes() {
    assert_eq!(auth_path("C:\\Users\\u", '\\'), "C:\\Users\\u\\.bili-hardcore\\auth.json");
    assert_eq!(config_dir("C:\\Users\\u\\", '\\'), "C:\\Users\\u\\.bili-hardcore");
    assert_eq!(config_dir("C:/Users/u/", '\\'), "C:/Users/u/.bili-hardcore");
    assert_eq!(config_dir("C:", '\\'), "C:.bili-hardcore");
    assert_eq!(config_dir("C:", '/'), "C:/.bili-hardcore");
}

#[test]
fn credentials_expire_after_a_week() {
    assert!(auth_is_fresh(0));
    assert!(auth_is_fresh(604_800));
    assert!(!auth_is_fresh(604_801));
    assert_eq!(default_reasoning_effort(), "high");
}

fn config(base_url: &str, effort: &str, thinking: bool) -> OpenAiConfig {
    OpenAiConfig {
        base_url: s(base_url),
        model: s("test-model"),
        api_key: s("secret"),
        enable_thinking: thinking,
        reasoning_effort: s(effort),
        enable_fast_mode: false,
    }
}

#[test]
fn the_client_trims_the_endpoint_and_defaults_the_effort() {
    let c = OpenAiClient::new(&config("https://api.openai.com/v1/chat/completions//", "", true));
    assert_eq!(c.base_url, "https://api.openai.com/v1/chat/completions");
    assert_eq!(c.reasoning_effort, "high");
    assert_eq!(c.model, "test-model");
    assert_eq!(c.authorization(), "Bearer secret");
}

#[test]
fn the_client_asks_in_its_endpoint_dialect() {
    let c = OpenAiClient::new(&config("https://api.x.ai/v1/chat/completions", "max", true));
    let body = c.request_body("题目", &vec![s("动画")]);
    assert!(body.reasoning_effort.is_none());
    assert!(body.messages[0].content.ends_with("题目"));
    assert!(body.messages[0].content.contains("动画"));
}

#[test]
fn the_question_is_written_with_its_options() {
    let q = question_for_model("大的反义词", &vec![s("长"), s("小")]);
    assert_eq!(q, "题目:大的反义词\n答案:[\"长\", \"小\"]");
    let q = question_for_model("Q", &vec![]);
    assert_eq!(q, "题目:Q\n答案:[]");
}

#[test]
fn the_stream_decoder_gathers_the_answer() {
    let mut d = StreamDecoder::new();
    let step = d.feed(r#"{"choices":[{"delta":{"reasoning_content":"想","content":""}}]}"#);
    assert!(!step.done);
    assert_eq!(step.chunks.len(), 1);
    assert!(matches!(&step.chunks[0], LlmChunk::Thinking(t) if t == "想"));
    let step = d.feed(r#"{"choices":[{"delta":{"content":"回答："}}]}"#);
    assert!(matches!(&step.chunks[0], LlmChunk::Content(t) if t == "回答："));
    let step = d.feed("not json");
    assert!(step.chunks.is_empty());
    let step = d.feed(r#"{"choices":[{"delta":{"content":"3"}}]}"#);
    assert_eq!(step.chunks.len(), 1);
    let step = d.feed("[DONE]");
    assert!(step.done);
    assert!(matches!(d.finish(), LlmChunk::Done(t) if t == "回答：3"));
}

#[test]
fn account_ids_are_masked() {
    assert_eq!(masked_uid("1234"), "UID 1234");
    assert_eq!(masked_uid("12345678"), "UID 12****78");
    assert_eq!(masked_uid(""), "UID ");
}

#[test]
fn session_times_are_shown_at_utc_plus_eight() {
    assert_eq!(format_time(0), "1970-01-01 08:00");
    assert_eq!(format_time(1_700_000_000), "2023-11-15 06:13");
}

#[test]
fn times_beyond_the_supported_years_are_not_recorded() {
    assert_eq!(format_time(253_402_300_800), "未记录");
    assert_eq!(format_time(i64::MAX), "未记录");
    assert_eq!(format_time(-377_705_116_801), "未记录");
    assert_eq!(format_time(i64::MIN), "未记录");
    assert_ne!(format_time(-377_705_116_800), "未记录");
}

#[test]
fn labels_of_phases_and_statuses() {
    assert_eq!(phase_label(&QuizPhase::NotConfigured), "等待模型配置");
    assert_eq!(phase_label(&QuizPhase::WaitingRetry { attempt: 1, delay_secs: 2 }), "AI 分析题目");
    assert_eq!(phase_label(&QuizPhase::Error(s("x"))), "需要处理");
    assert_eq!(session_status_label(SessionStatus::Passed), "已通过");
    assert_eq!(session_status_label(SessionStatus::Failed), "未通过");
    assert_eq!(session_status_label(SessionStatus::Interrupted), "异常终止");
}

fn session(score: i64, status: SessionStatus) -> SessionHistory {
    SessionHistory {
        id: s("1"),
        started_at: 0,
        finished_at: None,
        updated_at: 0,
        model: s("m"),
        categories: vec![],
        status,
        completed_questions: 0,
        score,
        category_scores: vec![],
        failure_stage: None,
        failure_message: None,
        questions: vec![],
    }
}

#[test]
fn home_statistics_count_and_average() {
    let sessions = vec![
        session(80, SessionStatus::Passed),
        session(45, SessionStatus::Failed),
        session(60, SessionStatus::Passed),
    ];
    assert_eq!(passed_count(&sessions), 2);
    assert_eq!(average_score(&sessions), Some(61));
    assert_eq!(average_score(&vec![]), None);
    assert_eq!(average_score(&vec![session(-7, SessionStatus::Interrupted), session(0, SessionStatus::Interrupted)]), Some(-3));
}

#[test]
fn accuracy_counts_the_questions_before_the_current_one() {
    assert_eq!(accuracy(3, 5), 75);
    assert_eq!(accuracy(7, 1), 0);
    assert_eq!(accuracy(2, 4), 66);
    assert_eq!(divide_toward_zero(-7, 2), -3);
    assert_eq!(divide_toward_zero(7, 2), 3);
    assert_eq!(divide_toward_zero(i64::MIN, 1), i64::MIN);
}

#[test]
fn replies_become_events() {
    assert!(matches!(level_event(Some(6)), AppEvent::LevelOk(6)));
    assert!(matches!(level_event(Some(5)), AppEvent::LevelFail(5)));
    assert!(matches!(level_event(None), AppEvent::LevelFail(0)));
    assert!(matches!(submit_result_event(Some(12)), AppEvent::SubmitOk { score: 12 }));
    assert!(matches!(submit_result_event(None), AppEvent::SubmitOk { score: 0 }));
    assert!(matches!(question_event(Some(1), None, None, None, None), AppEvent::NeedCaptcha));
}

#[test]
fn a_question_reply_keeps_complete_options() {
    let raw = vec![
        RawAnswer { text: Some(s("A")), hash: Some(s("ha")) },
        RawAnswer { text: None, hash: Some(s("hb")) },
        RawAnswer { text: Some(s("C")), hash: Some(s("hc")) },
    ];
    let ev = question_event(Some(0), Some(7), Some(s("题")), Some(raw), Some(99));
    match ev {
        AppEvent::QuestionReady { num, question, answers, id } => {
            assert_eq!(num, 7);
            assert_eq!(question, "题");
            assert_eq!(id, 99);
            assert_eq!(answers.len(), 2);
            assert_eq!(answers[1].text, "C");
            assert_eq!(answers[1].hash, "hc");
        }
        _ => panic!("expected a question"),
    }
    assert!(answers_from(vec![]).is_empty());
}

#[test]
fn a_login_reply_carries_the_credentials() {
    let cookies = vec![
        RawCookie { name: Some(s("SESSDATA")), value: Some(s("abc")) },
        RawCookie { name: Some(s("bili_jct")), value: Some(s("csrf1")) },
    ];
    match login_poll_event(Some(0), Some(s("tok")), Some(42), Some(cookies)) {
        AppEvent::LoginOk(auth) => {
            assert_eq!(auth.access_token, "tok");
            assert_eq!(auth.mid, "42");
            assert_eq!(auth.cookie, "SESSDATA=abc;bili_jct=csrf1");
            assert_eq!(auth.csrf, "csrf1");
        }
        _ => panic!("expected a login"),
    }
    assert!(matches!(login_poll_event(Some(86090), None, None, None), AppEvent::LoginPending));
}

#[test]
fn a_qr_reply_draws_the_code() {
    match qr_ready_event(Some(s("https://example.com")), Some(s("code"))) {
        AppEvent::QrReady { url, qr, auth_code } => {
            assert_eq!(url, "https://example.com");
            assert_eq!(auth_code, "code");
            assert_eq!(qr, make_qr("https://example.com"));
        }
        _ => panic!("expected a QR code"),
    }
}

#[test]
fn refused_answers_explain_why() {
    assert_eq!(submit_outcome(Some(0), "ok"), Ok(()));
    assert_eq!(submit_outcome(Some(41103), "x"), Err(s("请检查是否已经是硬核会员")));
    assert_eq!(submit_outcome(Some(-400), "{\"code\":-400}"), Err(s("提交失败: {\"code\":-400}")));
    assert_eq!(submit_outcome(None, "?"), Err(s("提交失败: ?")));
}

#[test]
fn the_final_result_keeps_complete_scores() {
    let raw = vec![
        RawScore { category: Some(s("动画")), score: Some(30), total: Some(50) },
        RawScore { category: Some(s("游戏")), score: None, total: Some(50) },
    ];
    match final_result_event(Some(80), Some(raw)) {
        AppEvent::QuizDone { score, scores } => {
            assert_eq!(score, 80);
            assert_eq!(scores.len(), 1);
            assert_eq!(scores[0].category, "动画");
            assert_eq!(scores[0].score, 30);
            assert_eq!(scores[0].total, 50);
        }
        _ => panic!("expected the result"),
    }
}

#[test]
fn categories_start_unselected() {
    let raw = vec![
        RawCategory { id: Some(1), name: Some(s("动画")) },
        RawCategory { id: None, name: Some(s("?")) },
        RawCategory { id: Some(3), name: Some(s("游戏")) },
    ];
    let cats = categories_from(raw);
    assert_eq!(cats.len(), 2);
    assert_eq!(cats[0].id, 1);
    assert_eq!(cats[1].name, "游戏");
    assert!(cats.iter().all(|c| !c.selected));
}

#[test]
fn the_chosen_option_is_marked() {
    assert_eq!(answer_mark(&QuizPhase::WaitingLlm, 2, 1), Some(true));
    assert_eq!(answer_mark(&QuizPhase::WaitingLlm, 2, 0), None);
    assert_eq!(answer_mark(&QuizPhase::ShowingResult { correct: false, countdown: 3 }, 2, 1), Some(false));
    assert_eq!(answer_mark(&QuizPhase::ShowingResult { correct: true, countdown: 3 }, 1, 0), Some(true));
    assert_eq!(answer_mark(&QuizPhase::Submitting, 0, 0), None);
}

#[test]
fn the_submitted_option_is_shown_with_its_letter() {
    assert_eq!(option_letter(0), 'A');
    assert_eq!(option_letter(3), 'D');
    let mut q = QuestionHistory {
        question_number: 3,
        question: s("题"),
        options: vec![s("长"), s("小")],
        chosen_index: 2,
        correct: true,
        correct_index: None,
    };
    assert_eq!(submitted_answer_text(&q), "B · 小");
    q.chosen_index = 0;
    assert_eq!(submitted_answer_text(&q), "未记录");
    q.chosen_index = 3;
    assert_eq!(submitted_answer_text(&q), "未记录");
}

#[test]
fn session_lines_name_score_progress_and_categories() {
    assert_eq!(categories_label(&vec![], " · "), "分类未记录");
    assert_eq!(categories_label(&vec![s("动画"), s("游戏")], " · "), "动画 · 游戏");
    let mut sess = session(-5, SessionStatus::Interrupted);
    sess.completed_questions = 12;
    sess.categories = vec![s("动画"), s("音乐")];
    assert_eq!(session_summary_line(&sess), "-5 分 · 完成 12/100 · 动画 / 音乐");
}

#[test]
fn the_retry_notice_counts_down() {
    assert_eq!(retry_notice(4, 2), "模型请求超时，4 秒后进行第 2/3 次重试");
}

#[test]
fn navigation_hides_while_answering() {
    assert!(is_answering(Page::Quiz, &QuizPhase::WaitingLlm));
    assert!(!is_answering(Page::Home, &QuizPhase::WaitingLlm));
    assert!(!is_answering(Page::Quiz, &QuizPhase::FetchingQuestion));
    assert!(is_busy(&QuizPhase::FetchingQuestion));
    assert!(!is_busy(&QuizPhase::NotConfigured));
}

#[test]
fn presets_are_found_by_endpoint() {
    let presets = vec![
        PresetTemplate {
            provider: s("a"),
            provider_name: s("A"),
            config: PresetConfig { base_url: s("https://a.example/v1"), model: s("m") },
        },
        PresetTemplate {
            provider: s("grok"),
            provider_name: s("Grok (xAI)"),
            config: PresetConfig { base_url: s("https://api.x.ai/v1/chat/completions"), model: s("g") },
        },
    ];
    assert_eq!(selected_preset(&presets, "https://api.x.ai/v1/chat/completions"), 1);
    assert_eq!(selected_preset(&presets, "https://other"), 0);
    assert_eq!(effort_hint(1), "平衡准确率与速度");
    assert_eq!(effort_hint(7), "最高准确率，Token 消耗较多");
}

#[test]
fn the_history_shows_the_chosen_option() {
    let item = HistoryItem {
        num: 1,
        question: s("题目"),
        options: vec![s("A"), s("B")],
        chosen_idx: 1,
        correct: true,
        correct_idx: None,
    };
    assert_eq!(chosen_option(&item), Some(s("A")));
    let none = HistoryItem { chosen_idx: 5, ..item };
    assert_eq!(chosen_option(&none), None);
    assert!(category_clickable(true, 3));
    assert!(!category_clickable(false, 3));
    assert!(category_clickable(false, 2));
}

#[test]
fn the_qr_code_can_be_opened_in_a_browser() {
    assert_eq!(
        qr_browser_url("https://a.b/c?d=1 中"),
        "https://api.cl2wm.cn/api/qrcode/code?text=https%3A%2F%2Fa.b%2Fc%3Fd%3D1%20%E4%B8%AD"
    );
    assert_eq!(qr_browser_url("a-b_c.d~e"), "https://api.cl2wm.cn/api/qrcode/code?text=a-b_c.d~e");
}

#[test]
fn refused_model_requests_keep_a_preview() {
    assert_eq!(http_failure_message("401 Unauthorized", "bad key"), "LLM 请求失败 (HTTP 401 Unauthorized): bad key");
    let long = "x".repeat(400);
    let m = http_failure_message("500 Internal Server Error", &long);
    assert_eq!(m, format!("LLM 请求失败 (HTTP 500 Internal Server Error): {}", "x".repeat(300)));
}

#[test]
fn failed_login_requests_say_which_step_failed() {
    assert!(matches!(ticket_failed_event("timeout"), AppEvent::Fail(m) if m == "获取 ticket 失败: timeout"));
    assert!(matches!(qr_failed_event("404"), AppEvent::Fail(m) if m == "获取二维码失败: 404"));
}

#[test]
fn sixty_points_pass() {
    assert!(is_passing(60));
    assert!(is_passing(100));
    assert!(!is_passing(59));
}

#[test]
fn the_window_follows_the_pages() {
    let mut shell = Shell { view: GuiView::Settings, selected_session: Some(2), exit_quiz_confirm: false, logout_confirm: true };
    shell.settle(Page::Config);
    assert_eq!(shell.view, GuiView::Settings);
    shell.settle(Page::Home);
    assert_eq!(shell.view, GuiView::Home);
    assert_eq!(shell.selected_session, Some(2));
    assert!(shell.logout_confirm);
    shell.open_session(4);
    assert_eq!(shell.view, GuiView::HistoryDetail);
    assert_eq!(shell.session_to_show(3), None);
    assert_eq!(shell.view, GuiView::History);
    assert_eq!(shell.selected_session, None);
    shell.open_session(1);
    assert_eq!(shell.session_to_show(3), Some(1));
    shell.close_session();
    assert_eq!(shell.view, GuiView::History);
    assert_eq!(shell.selected_session, None);
}
