//! Reading the site's replies: the fields that the background work takes
//! out of each JSON reply are turned into the event that the state handles.
use vstd::prelude::*;
use crate::app::{AnswerItem, AppEvent, CategoryItem, ScoreItem};
use crate::config::{join_seq, AuthData};
use crate::qr::{make_qr, qr_text_of, QR_FAILED};
use crate::text::{decimal_int, decimal_of_i64, push_chars, push_str, str_equal};

verus! {

/// The text of an optional string, empty where absent.
pub open spec fn text_or_empty(o: Option<String>) -> Seq<char> {
    match o {
        Some(s) => s@,
        None => Seq::empty(),
    }
}

/// An optional string, or an empty one.
pub fn string_or_empty(o: Option<String>) -> (s: String)
    ensures
        s@ == text_or_empty(o),
{
    match o {
        Some(s) => s,
        None => String::new(),
    }
}

/// An option of a question as the reply lists it.
pub struct RawAnswer {
    pub text: Option<String>,
    pub hash: Option<String>,
}

/// The options that have both a text and a hash, as (text, hash) pairs.
pub open spec fn complete_answers(raw: Seq<RawAnswer>) -> Seq<(Seq<char>, Seq<char>)>
    decreases raw.len(),
{
    if raw.len() == 0 {
        Seq::empty()
    } else {
        let rest = complete_answers(raw.drop_last());
        match (raw.last().text, raw.last().hash) {
            (Some(t), Some(h)) => rest.push((t@, h@)),
            _ => rest,
        }
    }
}

/// The (text, hash) pairs of a list of options.
pub open spec fn answer_pairs(a: Seq<AnswerItem>) -> Seq<(Seq<char>, Seq<char>)> {
    a.map_values(|x: AnswerItem| (x.text@, x.hash@))
}

/// The options of a question, keeping those that have a text and a hash.
pub fn answers_from(raw: Vec<RawAnswer>) -> (answers: Vec<AnswerItem>)
    ensures
        answer_pairs(answers@) == complete_answers(raw@),
{
    let mut answers: Vec<AnswerItem> = Vec::new();
    let mut i: usize = 0;
    while i < raw.len()
        invariant
            i <= raw@.len(),
            answer_pairs(answers@) == complete_answers(raw@.take(i as int)),
        decreases raw@.len() - i,
    {
        proof {
            assert(raw@.take(i + 1).drop_last() =~= raw@.take(i as int));
        }
        let r = &raw[i];
        match (&r.text, &r.hash) {
            (Some(t), Some(h)) => {
                let ghost before = answers@;
                answers.push(AnswerItem { text: t.clone(), hash: h.clone() });
                proof {
                    assert(answer_pairs(answers@) =~= answer_pairs(before).push((t@, h@)));
                }
            },
            _ => {},
        }
        i = i + 1;
    }
    proof {
        assert(raw@.take(raw@.len() as int) =~= raw@);
    }
    answers
}

/// The event for a reply to a question request: with code 0 the question
/// (missing fields read as 0 or empty), else the site wants a captcha.
pub fn question_event(code: Option<i64>, question_num: Option<u64>, question: Option<String>, answers: Option<Vec<RawAnswer>>, id: Option<i64>) -> (ev: AppEvent)
    ensures
        code != Some(0i64) ==> ev is NeedCaptcha,
        code == Some(0i64) ==> (ev matches AppEvent::QuestionReady { num, question: q, answers: a, id: i } && {
            &&& num == (match question_num { Some(n) => n, None => 0 }) as u32
            &&& q@ == text_or_empty(question)
            &&& answer_pairs(a@) == (match answers { Some(v) => complete_answers(v@), None => Seq::empty() })
            &&& i == (match id { Some(x) => x, None => 0 })
        }),
{
    match code {
        Some(0) => {
            let n: u64 = match question_num {
                Some(n) => n,
                None => 0,
            };
            let answers = match answers {
                Some(v) => answers_from(v),
                None => Vec::new(),
            };
            AppEvent::QuestionReady {
                num: n as u32,
                question: string_or_empty(question),
                answers,
                id: match id {
                    Some(x) => x,
                    None => 0,
                },
            }
        },
        _ => AppEvent::NeedCaptcha,
    }
}

/// The lowest account level that may take the quiz.
pub const REQUIRED_LEVEL: i64 = 6;

/// The event for the account level read from the reply (0 where absent).
pub fn level_event(level: Option<i64>) -> (ev: AppEvent)
    ensures
        ({
            let lv = match level { Some(l) => l, None => 0 };
            if lv >= 6 { ev == AppEvent::LevelOk(lv) } else { ev == AppEvent::LevelFail(lv) }
        }),
{
    let lv = match level {
        Some(l) => l,
        None => 0,
    };
    if lv >= REQUIRED_LEVEL {
        AppEvent::LevelOk(lv)
    } else {
        AppEvent::LevelFail(lv)
    }
}

/// A cookie of the login reply.
pub struct RawCookie {
    pub name: Option<String>,
    pub value: Option<String>,
}

/// `name=value` for each cookie, missing parts read as empty.
pub open spec fn cookie_parts(cookies: Seq<RawCookie>) -> Seq<Seq<char>> {
    cookies.map_values(|c: RawCookie| text_or_empty(c.name) + "="@ + text_or_empty(c.value))
}

/// The value of the last cookie named `bili_jct`, empty where there is none.
pub open spec fn csrf_of(cookies: Seq<RawCookie>) -> Seq<char>
    decreases cookies.len(),
{
    if cookies.len() == 0 {
        Seq::empty()
    } else if text_or_empty(cookies.last().name) == "bili_jct"@ {
        text_or_empty(cookies.last().value)
    } else {
        csrf_of(cookies.drop_last())
    }
}

/// The login credentials in a successful poll reply: the access token, the
/// account id, the cookies joined by `;`, and the `bili_jct` cookie as the
/// CSRF token.
pub fn login_auth(access_token: Option<String>, mid: Option<i64>, cookies: Option<Vec<RawCookie>>) -> (auth: AuthData)
    ensures
        auth.access_token@ == text_or_empty(access_token),
        auth.mid@ == decimal_int((match mid { Some(m) => m, None => 0 }) as int),
        auth.cookie@ == join_seq(cookie_parts(match cookies { Some(v) => v@, None => Seq::empty() }), ";"@),
        auth.csrf@ == csrf_of(match cookies { Some(v) => v@, None => Seq::empty() }),
{
    let cookies = match cookies {
        Some(v) => v,
        None => Vec::new(),
    };
    let mut csrf = String::new();
    let mut joined = String::new();
    let ghost parts = cookie_parts(cookies@);
    let mut i: usize = 0;
    while i < cookies.len()
        invariant
            i <= cookies@.len(),
            parts == cookie_parts(cookies@),
            joined@ == join_seq(parts.take(i as int), ";"@),
            csrf@ == csrf_of(cookies@.take(i as int)),
        decreases cookies@.len() - i,
    {
        let c = &cookies[i];
        let name = match &c.name {
            Some(n) => n.clone(),
            None => String::new(),
        };
        let value = match &c.value {
            Some(v) => v.clone(),
            None => String::new(),
        };
        proof {
            assert(parts.take(i + 1).drop_last() =~= parts.take(i as int));
            assert(cookies@.take(i + 1).drop_last() =~= cookies@.take(i as int));
        }
        if i > 0 {
            push_str(&mut joined, ";");
        } else {
            proof {
                assert(joined@ =~= Seq::<char>::empty());
            }
        }
        push_str(&mut joined, name.as_str());
        push_str(&mut joined, "=");
        push_str(&mut joined, value.as_str());
        proof {
            if i == 0 {
                assert(joined@ =~= parts.take(1)[0]);
            }
        }
        if str_equal(name.as_str(), "bili_jct") {
            csrf = value;
        }
        i = i + 1;
    }
    proof {
        assert(parts.take(cookies@.len() as int) =~= parts);
        assert(cookies@.take(cookies@.len() as int) =~= cookies@);
    }
    let mut mid_text = String::new();
    push_chars(&mut mid_text, &decimal_of_i64(match mid {
        Some(m) => m,
        None => 0,
    }));
    AuthData { access_token: string_or_empty(access_token), csrf, mid: mid_text, cookie: joined }
}

/// The event for a reply to a QR poll: logged in with code 0, else still waiting.
pub fn login_poll_event(code: Option<i64>, access_token: Option<String>, mid: Option<i64>, cookies: Option<Vec<RawCookie>>) -> (ev: AppEvent)
    ensures
        code != Some(0i64) ==> ev is LoginPending,
        code == Some(0i64) ==> (ev matches AppEvent::LoginOk(auth) && {
            &&& auth.access_token@ == text_or_empty(access_token)
            &&& auth.mid@ == decimal_int((match mid { Some(m) => m, None => 0 }) as int)
            &&& auth.cookie@ == join_seq(cookie_parts(match cookies { Some(v) => v@, None => Seq::empty() }), ";"@)
            &&& auth.csrf@ == csrf_of(match cookies { Some(v) => v@, None => Seq::empty() })
        }),
{
    match code {
        Some(0) => AppEvent::LoginOk(login_auth(access_token, mid, cookies)),
        _ => AppEvent::LoginPending,
    }
}

/// The event for a fresh login QR code: its URL, the URL as a text QR code,
/// and the code to poll with.
pub fn qr_ready_event(url: Option<String>, auth_code: Option<String>) -> (ev: AppEvent)
    ensures
        ev matches AppEvent::QrReady { url: u, qr, auth_code: c } && {
            &&& u@ == text_or_empty(url)
            &&& c@ == text_or_empty(auth_code)
            &&& qr@ == (match qr_text_of(vstd::utf8::encode_utf8(text_or_empty(url))) { Some(t) => t, None => QR_FAILED@ })
        },
{
    let url = string_or_empty(url);
    let qr = make_qr(url.as_str());
    AppEvent::QrReady { url, qr, auth_code: string_or_empty(auth_code) }
}

/// The code of a refused answer that means the account is already a member.
pub const ALREADY_MEMBER_CODE: i64 = 41103;

/// The message when the account is already a member.
pub const ALREADY_MEMBER: &'static str = "请检查是否已经是硬核会员";

/// Before the reply of any other refused answer.
pub const SUBMIT_FAILED_PREFIX: &'static str = "提交失败: ";

/// Whether a submitted answer was taken: `Ok` with code 0, else the
/// message for the failure, with the reply's text for an unknown code.
pub fn submit_outcome(code: Option<i64>, reply_text: &str) -> (r: Result<(), String>)
    ensures
        code == Some(0i64) ==> r is Ok,
        code == Some(41103i64) ==> (r matches Err(m) && m@ == ALREADY_MEMBER@),
        code != Some(0i64) && code != Some(41103i64) ==> (r matches Err(m) && m@ == SUBMIT_FAILED_PREFIX@ + reply_text@),
{
    match code {
        Some(0) => Ok(()),
        Some(41103) => Err(String::from_str(ALREADY_MEMBER)),
        _ => {
            let mut m = String::from_str(SUBMIT_FAILED_PREFIX);
            push_str(&mut m, reply_text);
            Err(m)
        },
    }
}

/// The event after an answer was taken: the score read from the result
/// (0 where absent or where the result could not be read).
pub fn submit_result_event(score: Option<i64>) -> (ev: AppEvent)
    ensures
        ev == (AppEvent::SubmitOk { score: match score { Some(s) => s, None => 0 } }),
{
    AppEvent::SubmitOk {
        score: match score {
            Some(s) => s,
            None => 0,
        },
    }
}

/// A category score as the final result lists it.
pub struct RawScore {
    pub category: Option<String>,
    pub score: Option<i64>,
    pub total: Option<i64>,
}

/// The category scores that have all three fields.
pub open spec fn complete_scores(raw: Seq<RawScore>) -> Seq<(Seq<char>, i64, i64)>
    decreases raw.len(),
{
    if raw.len() == 0 {
        Seq::empty()
    } else {
        let rest = complete_scores(raw.drop_last());
        match (raw.last().category, raw.last().score, raw.last().total) {
            (Some(c), Some(s), Some(t)) => rest.push((c@, s, t)),
            _ => rest,
        }
    }
}

/// The (category, score, total) triples of a list of scores.
pub open spec fn score_triples(s: Seq<ScoreItem>) -> Seq<(Seq<char>, i64, i64)> {
    s.map_values(|x: ScoreItem| (x.category@, x.score, x.total))
}

/// The event for the final result: the total score (0 where absent) and
/// the category scores that have all their fields.
pub fn final_result_event(score: Option<i64>, scores: Option<Vec<RawScore>>) -> (ev: AppEvent)
    ensures
        ev matches AppEvent::QuizDone { score: s, scores: sc } && {
            &&& s == (match score { Some(x) => x, None => 0 })
            &&& score_triples(sc@) == (match scores { Some(v) => complete_scores(v@), None => Seq::empty() })
        },
{
    let raw = match scores {
        Some(v) => v,
        None => Vec::new(),
    };
    let mut items: Vec<ScoreItem> = Vec::new();
    let mut i: usize = 0;
    while i < raw.len()
        invariant
            i <= raw@.len(),
            score_triples(items@) == complete_scores(raw@.take(i as int)),
        decreases raw@.len() - i,
    {
        proof {
            assert(raw@.take(i + 1).drop_last() =~= raw@.take(i as int));
        }
        let r = &raw[i];
        match (&r.category, r.score, r.total) {
            (Some(c), Some(s), Some(t)) => {
                let ghost before = items@;
                items.push(ScoreItem { category: c.clone(), score: s, total: t });
                proof {
                    assert(score_triples(items@) =~= score_triples(before).push((c@, s, t)));
                }
            },
            _ => {},
        }
        i = i + 1;
    }
    proof {
        assert(raw@.take(raw@.len() as int) =~= raw@);
    }
    AppEvent::QuizDone {
        score: match score {
            Some(x) => x,
            None => 0,
        },
        scores: items,
    }
}

/// A category as the category list names it.
pub struct RawCategory {
    pub id: Option<i64>,
    pub name: Option<String>,
}

/// The categories that have an id and a name, as (id, name) pairs.
pub open spec fn complete_categories(raw: Seq<RawCategory>) -> Seq<(i64, Seq<char>)>
    decreases raw.len(),
{
    if raw.len() == 0 {
        Seq::empty()
    } else {
        let rest = complete_categories(raw.drop_last());
        match (raw.last().id, raw.last().name) {
            (Some(i), Some(n)) => rest.push((i, n@)),
            _ => rest,
        }
    }
}

/// The (id, name) pairs of a list of categories.
pub open spec fn category_pairs(c: Seq<CategoryItem>) -> Seq<(i64, Seq<char>)> {
    c.map_values(|x: CategoryItem| (x.id, x.name@))
}

/// The categories to choose from, none of them selected.
pub fn categories_from(raw: Vec<RawCategory>) -> (cats: Vec<CategoryItem>)
    ensures
        category_pairs(cats@) == complete_categories(raw@),
        forall|i: int| 0 <= i < cats@.len() ==> !(#[trigger] cats@[i]).selected,
{
    let mut cats: Vec<CategoryItem> = Vec::new();
    let mut i: usize = 0;
    while i < raw.len()
        invariant
            i <= raw@.len(),
            category_pairs(cats@) == complete_categories(raw@.take(i as int)),
            forall|k: int| 0 <= k < cats@.len() ==> !(#[trigger] cats@[k]).selected,
        decreases raw@.len() - i,
    {
        proof {
            assert(raw@.take(i + 1).drop_last() =~= raw@.take(i as int));
        }
        let r = &raw[i];
        match (r.id, &r.name) {
            (Some(id), Some(n)) => {
                let ghost before = cats@;
                cats.push(CategoryItem { id, name: n.clone(), selected: false });
                proof {
                    assert(category_pairs(cats@) =~= category_pairs(before).push((id, n@)));
                }
            },
            _ => {},
        }
        i = i + 1;
    }
    proof {
        assert(raw@.take(raw@.len() as int) =~= raw@);
    }
    cats
}

/// Before the error of a ticket request that failed.
pub const TICKET_FAILED_PREFIX: &'static str = "获取 ticket 失败: ";

/// Before the error of a QR code request that failed.
pub const QR_FAILED_PREFIX: &'static str = "获取二维码失败: ";

/// The event for a failed ticket request with the error `message`.
pub fn ticket_failed_event(message: &str) -> (ev: AppEvent)
    ensures
        ev matches AppEvent::Fail(m) && m@ == TICKET_FAILED_PREFIX@ + message@,
{
    let mut m = String::from_str(TICKET_FAILED_PREFIX);
    push_str(&mut m, message);
    AppEvent::Fail(m)
}

/// The event for a failed QR code request with the error `message`.
pub fn qr_failed_event(message: &str) -> (ev: AppEvent)
    ensures
        ev matches AppEvent::Fail(m) && m@ == QR_FAILED_PREFIX@ + message@,
{
    let mut m = String::from_str(QR_FAILED_PREFIX);
    push_str(&mut m, message);
    AppEvent::Fail(m)
}

} // verus!
