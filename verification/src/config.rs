//! Model configuration, login credentials, preset templates, the places of
//! the stored files and the prompt that the model is given.
use vstd::prelude::*;
use crate::text::{push_char, push_str};

verus! {

/// A provider's API endpoint and model, offered as a starting point.
#[derive(Debug, Clone)]
pub struct PresetConfig {
    pub base_url: String,
    pub model: String,
}

/// A named provider preset.
#[derive(Debug, Clone)]
pub struct PresetTemplate {
    pub provider: String,
    pub provider_name: String,
    pub config: PresetConfig,
}

/// How the language model is reached and asked.
#[derive(Debug, Clone)]
pub struct OpenAiConfig {
    pub base_url: String,
    pub model: String,
    pub api_key: String,
    pub enable_thinking: bool,
    /// Reasoning strength (low / high / max); "high" when a stored file has none.
    pub reasoning_effort: String,
    pub enable_fast_mode: bool,
}

/// The credentials of a logged-in account.
#[derive(Debug, Clone)]
pub struct AuthData {
    pub access_token: String,
    pub csrf: String,
    pub mid: String,
    pub cookie: String,
}

impl OpenAiConfig {
    /// A field-for-field copy.
    pub fn duplicate(&self) -> (r: Self)
        ensures
            r == *self,
    {
        OpenAiConfig {
            base_url: self.base_url.clone(),
            model: self.model.clone(),
            api_key: self.api_key.clone(),
            enable_thinking: self.enable_thinking,
            reasoning_effort: self.reasoning_effort.clone(),
            enable_fast_mode: self.enable_fast_mode,
        }
    }
}

impl AuthData {
    /// A field-for-field copy.
    pub fn duplicate(&self) -> (r: Self)
        ensures
            r == *self,
    {
        AuthData {
            access_token: self.access_token.clone(),
            csrf: self.csrf.clone(),
            mid: self.mid.clone(),
            cookie: self.cookie.clone(),
        }
    }
}

/// The reasoning strength used where a stored configuration names none.
pub fn default_reasoning_effort() -> (s: String)
    ensures
        s@ == "high"@,
{
    String::from_str("high")
}

/// The name of the directory, under the home directory, that holds the stored files.
pub const CONFIG_DIR_NAME: &'static str = ".bili-hardcore";

/// `c` separates path components on a system whose main separator is
/// `sep`: `/` always, and `sep` itself (a backslash on Windows).
pub open spec fn is_separator(c: char, sep: char) -> bool {
    c == '/' || c == sep
}

/// `base` is a bare Windows drive, such as `C:`, after which no separator
/// is put.
pub open spec fn bare_drive(base: Seq<char>, sep: char) -> bool {
    &&& sep == '\\'
    &&& base.len() == 2
    &&& base[1] == ':'
    &&& (('a' <= base[0] && base[0] <= 'z') || ('A' <= base[0] && base[0] <= 'Z'))
}

/// `base` followed by the relative path component `name`, as
/// `PathBuf::join` puts it on a system whose main separator is `sep`: with
/// `sep` between them, unless `base` is empty, ends with a separator, or is
/// a bare Windows drive.
pub open spec fn path_join(base: Seq<char>, name: Seq<char>, sep: char) -> Seq<char> {
    if base.len() == 0 || is_separator(base.last(), sep) || bare_drive(base, sep) {
        base + name
    } else {
        base + seq![sep] + name
    }
}

/// Joins a relative path component onto a directory path, with `sep` (the
/// system's main separator, `std::path::MAIN_SEPARATOR`) between them.
pub fn join_path(base: &str, name: &str, sep: char) -> (p: String)
    ensures
        p@ == path_join(base@, name@, sep),
{
    let mut p = String::from_str(base);
    let n = base.unicode_len();
    let needs_sep = if n == 0 {
        false
    } else {
        let last = base.get_char(n - 1);
        if last == '/' || last == sep {
            false
        } else if sep == '\\' && n == 2 && base.get_char(1) == ':' {
            let d = base.get_char(0);
            !(('a' <= d && d <= 'z') || ('A' <= d && d <= 'Z'))
        } else {
            true
        }
    };
    if needs_sep {
        push_char(&mut p, sep);
    }
    push_str(&mut p, name);
    p
}

/// The directory of the stored files, under the home directory `home`.
pub fn config_dir(home: &str, sep: char) -> (p: String)
    ensures
        p@ == path_join(home@, CONFIG_DIR_NAME@, sep),
{
    join_path(home, CONFIG_DIR_NAME, sep)
}

/// The stored-file path `name` under the configuration directory of `home`.
pub open spec fn stored_file(home: Seq<char>, name: Seq<char>, sep: char) -> Seq<char> {
    path_join(path_join(home, CONFIG_DIR_NAME@, sep), name, sep)
}

/// Where the model configuration is stored.
pub fn openai_config_path(home: &str, sep: char) -> (p: String)
    ensures
        p@ == stored_file(home@, "openai_config.json"@, sep),
{
    let dir = config_dir(home, sep);
    join_path(dir.as_str(), "openai_config.json", sep)
}

/// Where the login credentials are stored.
pub fn auth_path(home: &str, sep: char) -> (p: String)
    ensures
        p@ == stored_file(home@, "auth.json"@, sep),
{
    let dir = config_dir(home, sep);
    join_path(dir.as_str(), "auth.json", sep)
}

/// Where the chosen question categories are stored.
pub fn categories_path(home: &str, sep: char) -> (p: String)
    ensures
        p@ == stored_file(home@, "categories.json"@, sep),
{
    let dir = config_dir(home, sep);
    join_path(dir.as_str(), "categories.json", sep)
}

/// Where the per-question answer history is stored.
pub fn history_path(home: &str, sep: char) -> (p: String)
    ensures
        p@ == stored_file(home@, "history.json"@, sep),
{
    let dir = config_dir(home, sep);
    join_path(dir.as_str(), "history.json", sep)
}

/// Where the history of quiz sessions is stored.
pub fn sessions_path(home: &str, sep: char) -> (p: String)
    ensures
        p@ == stored_file(home@, "sessions.json"@, sep),
{
    let dir = config_dir(home, sep);
    join_path(dir.as_str(), "sessions.json", sep)
}

/// A stored credential file older than this many seconds is not used.
pub const AUTH_MAX_AGE_SECS: u64 = 604800;

/// Whether credentials stored `age_secs` seconds ago may still be used.
pub fn auth_is_fresh(age_secs: u64) -> (b: bool)
    ensures
        b == (age_secs <= 7 * 24 * 3600),
{
    age_secs <= AUTH_MAX_AGE_SECS
}

/// The items of `items`, with `sep` between each two of them.
pub open spec fn join_seq(items: Seq<Seq<char>>, sep: Seq<char>) -> Seq<char>
    decreases items.len(),
{
    if items.len() == 0 {
        Seq::empty()
    } else if items.len() == 1 {
        items[0]
    } else {
        join_seq(items.drop_last(), sep) + sep + items.last()
    }
}

/// The texts of a list of strings.
pub open spec fn texts(v: Seq<String>) -> Seq<Seq<char>> {
    v.map_values(|s: String| s@)
}

/// Joins `items` with `sep` between each two of them (`[String]::join`).
pub fn join_strings(items: &Vec<String>, sep: &str) -> (out: String)
    ensures
        out@ == join_seq(texts(items@), sep@),
{
    let mut out = String::new();
    let ghost all = texts(items@);
    let mut i: usize = 0;
    while i < items.len()
        invariant
            i <= items@.len(),
            all == texts(items@),
            out@ == join_seq(all.take(i as int), sep@),
        decreases items@.len() - i,
    {
        proof {
            assert(all.take(i + 1).drop_last() =~= all.take(i as int));
            assert(all.take(i + 1).last() == items@[i as int]@);
        }
        if i > 0 {
            push_str(&mut out, sep);
        } else {
            proof {
                assert(out@ =~= Seq::<char>::empty());
            }
        }
        push_str(&mut out, items[i].as_str());
        proof {
            if i == 0 {
                assert(out@ =~= all.take(1)[0]);
            }
        }
        i = i + 1;
    }
    proof {
        assert(all.take(items@.len() as int) =~= all);
    }
    out
}

/// The opening of the quiz prompt, up to the list of categories.
pub const PROMPT_OPENING: &'static str = "你是一个资深B站用户，目前正在完成硬核会员试炼考试，考试内容涉及的分区：[";

/// The rest of the quiz instructions, after the list of categories.
pub const PROMPT_RULES: &'static str = "]，面对选择题时，直接根据问题和选项判断正确答案，并返回对应选项的序号（1, 2, 3, 4）。示例：\n问题：大的反义词是什么？\n选项：['长', '宽', '小', '热']\n回答：3\n如果不确定正确答案，选择最接近的选项序号返回，不提供额外解释或超出 1-4 的内容。";

/// What stands for the categories when none was chosen.
pub const UNKNOWN_CATEGORIES: &'static str = "未知";

/// The separator between category names.
pub const CATEGORY_SEPARATOR: &'static str = "、";

/// Between the instructions and the question.
pub const PROMPT_DIVIDER: &'static str = "\n---\n";

/// Put before the question when the model is asked not to think.
pub const NO_THINKING_NOTE: &'static str = "不要思考，直接回答我的问题：";

/// The category list as the prompt names it.
pub open spec fn category_text(categories: Seq<Seq<char>>) -> Seq<char> {
    if categories.len() == 0 {
        UNKNOWN_CATEGORIES@
    } else {
        join_seq(categories, CATEGORY_SEPARATOR@)
    }
}

/// The full prompt for one question.
pub open spec fn quiz_prompt(categories: Seq<Seq<char>>, question: Seq<char>, enable_thinking: bool) -> Seq<char> {
    let base = PROMPT_OPENING@ + category_text(categories) + PROMPT_RULES@;
    if enable_thinking {
        base + PROMPT_DIVIDER@ + question
    } else {
        base + PROMPT_DIVIDER@ + NO_THINKING_NOTE@ + question
    }
}

/// Builds the prompt that asks the model for the number of the right option.
pub fn build_quiz_prompt(categories: &Vec<String>, question: &str, enable_thinking: bool) -> (p: String)
    ensures
        p@ == quiz_prompt(texts(categories@), question@, enable_thinking),
{
    let cat_str = if categories.len() == 0 {
        String::from_str(UNKNOWN_CATEGORIES)
    } else {
        join_strings(categories, CATEGORY_SEPARATOR)
    };
    let mut p = String::from_str(PROMPT_OPENING);
    push_str(&mut p, cat_str.as_str());
    push_str(&mut p, PROMPT_RULES);
    push_str(&mut p, PROMPT_DIVIDER);
    if !enable_thinking {
        push_str(&mut p, NO_THINKING_NOTE);
    }
    push_str(&mut p, question);
    proof {
        let base = PROMPT_OPENING@ + category_text(texts(categories@)) + PROMPT_RULES@;
        if enable_thinking {
            assert(p@ =~= base + PROMPT_DIVIDER@ + question@);
        } else {
            assert(p@ =~= base + PROMPT_DIVIDER@ + NO_THINKING_NOTE@ + question@);
        }
    }
    p
}

} // verus!
