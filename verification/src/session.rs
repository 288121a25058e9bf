//! Session bookkeeping: a session is opened with the first question of a
//! run, records each answered question once, and is closed as passed,
//! failed or interrupted.
use vstd::prelude::*;
use crate::answer::{redact_error, redacted};
use crate::app::{
    option_texts, records, answer_texts, copy_strings, copy_scores, App, Effect, HistoryItem,
    QuestionHistory, ScoreItem, SessionHistory, SessionStatus,
};
use crate::config::texts;
use crate::text::{decimal, decimal_int, decimal_of_i64, decimal_of_u128, push_chars};

verus! {

/// The model name a session records where no model is configured.
pub const UNRECORDED: &'static str = "未记录";

/// The lowest final score that passes.
pub const PASS_SCORE: i64 = 60;

/// The identifier of a session opened at `now` as the `n`-th one.
pub open spec fn session_id(now: i64, n: nat) -> Seq<char> {
    decimal_int(now as int) + seq!['-'] + decimal(n)
}

/// `s` is the session that `a` opens at `now`: it takes over the questions
/// answered so far, the score and the chosen categories.
pub open spec fn new_session(s: SessionHistory, a: App, now: i64) -> bool {
    &&& s.id@ == session_id(now, (a.sessions@.len() + 1) as nat)
    &&& s.started_at == now
    &&& s.finished_at is None
    &&& s.updated_at == now
    &&& s.model@ == (match a.config {
        Some(c) => c.model@,
        None => UNRECORDED@,
    })
    &&& texts(s.categories@) == texts(a.selected_categories@)
    &&& s.status == SessionStatus::Interrupted
    &&& s.questions@.len() == a.history@.len()
    &&& forall|i: int| 0 <= i < a.history@.len() ==> records(#[trigger] s.questions@[i], a.history@[i])
    &&& s.completed_questions == a.history@.len() as u32
    &&& s.score == a.score
    &&& s.category_scores@.len() == 0
    &&& s.failure_stage is None
    &&& s.failure_message is None
}

/// `qs` holds a question numbered `num`.
pub open spec fn has_number(qs: Seq<QuestionHistory>, num: u32) -> bool {
    exists|i: int| 0 <= i < qs.len() && (#[trigger] qs[i]).question_number == num
}

/// `q` records the current question of `a`, answered `correct`ly.
pub open spec fn records_current(q: QuestionHistory, a: App, correct: bool) -> bool {
    &&& q.question_number == a.question_num
    &&& q.question@ == a.question_text@
    &&& texts(q.options@) == option_texts(a.answers@)
    &&& q.chosen_index == a.chosen_answer_idx
    &&& q.correct == correct
    &&& q.correct_index is None
}

/// `s` is `b` after recording the current question of `a` at `now`: the
/// question is added unless one with its number is there already.
pub open spec fn recorded(s: SessionHistory, b: SessionHistory, a: App, correct: bool, now: i64) -> bool {
    &&& s == SessionHistory {
        questions: s.questions,
        completed_questions: s.completed_questions,
        score: s.score,
        updated_at: s.updated_at,
        ..b
    }
    &&& has_number(b.questions@, a.question_num) ==> s.questions@ == b.questions@
    &&& !has_number(b.questions@, a.question_num) ==> {
        &&& s.questions@.len() == b.questions@.len() + 1
        &&& s.questions@.drop_last() == b.questions@
        &&& records_current(s.questions@.last(), a, correct)
    }
    &&& s.completed_questions == s.questions@.len() as u32
    &&& s.score == a.score
    &&& s.updated_at == now
}

/// The status of a finished session with the given final score.
pub open spec fn final_status(score: i64) -> SessionStatus {
    if score >= PASS_SCORE {
        SessionStatus::Passed
    } else {
        SessionStatus::Failed
    }
}

/// Whether a final score passes the quiz.
pub fn is_passing(score: i64) -> (b: bool)
    ensures
        b == (final_status(score) == SessionStatus::Passed),
{
    score >= PASS_SCORE
}

/// `s` is `b` closed at `now` with the final result.
pub open spec fn finalized(s: SessionHistory, b: SessionHistory, score: i64, scores: Seq<ScoreItem>, now: i64) -> bool {
    &&& s == SessionHistory {
        updated_at: now,
        finished_at: Some(now),
        score: score,
        status: final_status(score),
        category_scores: s.category_scores,
        failure_stage: None,
        failure_message: None,
        ..b
    }
    &&& s.category_scores@ == scores
}

/// `s` is `b` closed at `now` as interrupted at `stage` with `message`.
pub open spec fn interrupted(s: SessionHistory, b: SessionHistory, message: Seq<char>, stage: Seq<char>, now: i64) -> bool {
    &&& s == SessionHistory {
        updated_at: now,
        finished_at: Some(now),
        status: SessionStatus::Interrupted,
        failure_stage: s.failure_stage,
        failure_message: s.failure_message,
        ..b
    }
    &&& s.failure_stage matches Some(st) && st@ == stage
    &&& s.failure_message matches Some(m) && m@ == redacted(message)
}

/// `b` is `a` with at most the open session changed.
pub open spec fn same_but_session(a: App, b: App) -> bool {
    b == App { active_session: b.active_session, ..a }
}

/// `b` is `a` with at most the open session and the session list changed.
pub open spec fn same_but_sessions(a: App, b: App) -> bool {
    b == App { active_session: b.active_session, sessions: b.sessions, ..a }
}

/// `b` is `a` after making sure that a session is open.
pub open spec fn opened_session(a: App, b: App, now: i64) -> bool {
    if a.active_session is Some {
        b == a
    } else {
        &&& same_but_session(a, b)
        &&& b.active_session matches Some(s) && new_session(s, a, now)
    }
}

/// `b` is `a` after recording its current question in the open session.
pub open spec fn recorded_in(a: App, b: App, correct: bool, now: i64) -> bool {
    &&& same_but_session(a, b)
    &&& b.active_session matches Some(s) && {
        ||| a.active_session matches Some(o) && recorded(s, o, a, correct, now)
        ||| a.active_session is None && exists|o: SessionHistory| new_session(o, a, now) && recorded(s, o, a, correct, now)
    }
}

/// `b` is `a` after closing the session with the final result.
pub open spec fn finished_in(a: App, b: App, score: i64, scores: Seq<ScoreItem>, now: i64) -> bool {
    &&& same_but_sessions(a, b)
    &&& b.active_session is None
    &&& b.sessions@.len() == a.sessions@.len() + 1
    &&& b.sessions@.skip(1) == a.sessions@
    &&& {
        let s = b.sessions@[0];
        ||| a.active_session matches Some(o) && finalized(s, o, score, scores, now)
        ||| a.active_session is None && exists|o: SessionHistory| new_session(o, a, now) && finalized(s, o, score, scores, now)
    }
}

/// `b` and `effects` are `a` after closing the session as interrupted.
pub open spec fn interrupted_in(a: App, b: App, message: Seq<char>, stage: Seq<char>, now: i64, effects: Seq<Effect>) -> bool {
    match a.active_session {
        None => b == a && effects.len() == 0,
        Some(o) => if o.completed_questions == 0 {
            &&& b == App { active_session: None, ..a }
            &&& effects.len() == 0
        } else {
            &&& same_but_sessions(a, b)
            &&& b.active_session is None
            &&& b.sessions@.len() == a.sessions@.len() + 1
            &&& b.sessions@.skip(1) == a.sessions@
            &&& interrupted(b.sessions@[0], o, message, stage, now)
            &&& effects == seq![Effect::SaveSessions]
        },
    }
}

impl App {
    /// Opens a session for the run in progress, unless one is open.
    pub fn ensure_active_session(&mut self, now: i64)
        ensures
            opened_session(*old(self), *final(self), now),
    {
        if self.active_session.is_some() {
            return;
        }
        let mut questions: Vec<QuestionHistory> = Vec::new();
        let mut i: usize = 0;
        while i < self.history.len()
            invariant
                i <= self.history@.len(),
                questions@.len() == i,
                forall|j: int| 0 <= j < i ==> records(#[trigger] questions@[j], self.history@[j]),
            decreases self.history@.len() - i,
        {
            questions.push(QuestionHistory::from_history_item(&self.history[i]));
            i = i + 1;
        }
        let mut id = decimal_of_i64(now);
        id.push('-');
        let count: u128 = (self.sessions.len() as u128) + 1;
        let number = decimal_of_u128(count);
        let mut id_text = String::new();
        push_chars(&mut id_text, &id);
        push_chars(&mut id_text, &number);
        let model = match &self.config {
            Some(config) => config.model.clone(),
            None => String::from_str(UNRECORDED),
        };
        let completed = questions.len() as u32;
        self.active_session = Some(SessionHistory {
            id: id_text,
            started_at: now,
            finished_at: None,
            updated_at: now,
            model,
            categories: copy_strings(&self.selected_categories),
            status: SessionStatus::Interrupted,
            completed_questions: completed,
            score: self.score,
            category_scores: Vec::new(),
            failure_stage: None,
            failure_message: None,
            questions,
        });
        proof {
            assert(id_text@ =~= session_id(now, (old(self).sessions@.len() + 1) as nat));
        }
    }

    /// Records the current question in the open session (opening one if
    /// needed), unless a question with its number is recorded already.
    pub fn record_session_question(&mut self, correct: bool, now: i64)
        ensures
            recorded_in(*old(self), *final(self), correct, now),
    {
        self.ensure_active_session(now);
        let ghost opened = self.active_session;
        let item = HistoryItem {
            num: self.question_num,
            question: self.question_text.clone(),
            options: answer_texts(&self.answers),
            chosen_idx: self.chosen_answer_idx,
            correct,
            correct_idx: None,
        };
        let score = self.score;
        let mut session = match self.active_session.take() {
            Some(s) => s,
            None => {
                proof {
                    assert(false);
                }
                return;
            },
        };
        let ghost before = session;
        let mut found = false;
        let mut i: usize = 0;
        while i < session.questions.len()
            invariant
                i <= session.questions@.len(),
                found <==> exists|j: int| 0 <= j < i && (#[trigger] session.questions@[j]).question_number == item.num,
            decreases session.questions@.len() - i,
        {
            if session.questions[i].question_number == item.num {
                found = true;
            }
            i = i + 1;
        }
        if !found {
            session.questions.push(QuestionHistory::from_history_item(&item));
        }
        session.completed_questions = session.questions.len() as u32;
        session.score = score;
        session.updated_at = now;
        proof {
            if found {
                assert(session.questions@ == before.questions@);
            } else {
                assert(session.questions@.drop_last() =~= before.questions@);
            }
        }
        self.active_session = Some(session);
    }

    /// Closes the session with the final result and puts it first in the list.
    pub fn finish_session(&mut self, score: i64, scores: &Vec<ScoreItem>, now: i64) -> (effects: Vec<Effect>)
        ensures
            finished_in(*old(self), *final(self), score, scores@, now),
            effects@ == seq![Effect::SaveSessions],
    {
        self.ensure_active_session(now);
        let mut session = match self.active_session.take() {
            Some(s) => s,
            None => {
                proof {
                    assert(false);
                }
                return Vec::new();
            },
        };
        session.updated_at = now;
        session.finished_at = Some(now);
        session.score = score;
        session.status = if score >= PASS_SCORE {
            SessionStatus::Passed
        } else {
            SessionStatus::Failed
        };
        session.category_scores = copy_scores(scores);
        session.failure_stage = None;
        session.failure_message = None;
        self.sessions.insert(0, session);
        proof {
            assert(self.sessions@.skip(1) =~= old(self).sessions@);
        }
        let mut effects: Vec<Effect> = Vec::new();
        effects.push(Effect::SaveSessions);
        effects
    }

    /// Closes the open session as interrupted at `stage`, keeping it only
    /// when at least one question was answered in it.
    pub fn interrupt_session(&mut self, message: &str, stage: &str, now: i64) -> (effects: Vec<Effect>)
        ensures
            interrupted_in(*old(self), *final(self), message@, stage@, now, effects@),
    {
        let mut effects: Vec<Effect> = Vec::new();
        let mut session = match self.active_session.take() {
            Some(s) => s,
            None => {
                return effects;
            },
        };
        if session.completed_questions == 0 {
            return effects;
        }
        session.updated_at = now;
        session.finished_at = Some(now);
        session.status = SessionStatus::Interrupted;
        session.failure_stage = Some(String::from_str(stage));
        session.failure_message = Some(redact_error(message));
        self.sessions.insert(0, session);
        proof {
            assert(self.sessions@.skip(1) =~= old(self).sessions@);
        }
        effects.push(Effect::SaveSessions);
        effects
    }
}

} // verus!
