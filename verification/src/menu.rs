//! Menu and settings decisions.
//!
//! The interactive menus live outside the library: they print choices, read
//! one line, and ask the functions here what the line means and what to do
//! next. The credential for study mode is an explicit value held in
//! [`Settings`], stored and read through one boundary instead of ambient
//! environment lookups scattered through the logic.

use vstd::prelude::*;
use vstd::string::StrSliceExecFns;
use vstd::string::StringExecFns;

verus! {

/// The whitespace that line input is trimmed of.
pub open spec fn is_space(c: char) -> bool {
    c == ' ' || c == '\t' || c == '\n' || c == '\r'
}

/// The text with its leading whitespace removed.
pub open spec fn trim_start(s: Seq<char>) -> Seq<char>
    decreases s.len(),
{
    if s.len() > 0 && is_space(s[0]) {
        trim_start(s.drop_first())
    } else {
        s
    }
}

/// The text with its trailing whitespace removed.
pub open spec fn trim_end(s: Seq<char>) -> Seq<char>
    decreases s.len(),
{
    if s.len() > 0 && is_space(s.last()) {
        trim_end(s.drop_last())
    } else {
        s
    }
}

/// The text with whitespace removed from both ends.
pub open spec fn trimmed(s: Seq<char>) -> Seq<char> {
    trim_end(trim_start(s))
}

fn is_space_char(c: char) -> (r: bool)
    ensures
        r == is_space(c),
{
    c == ' ' || c == '\t' || c == '\n' || c == '\r'
}

proof fn lemma_trim_end_take(t: Seq<char>, m: int)
    requires
        0 <= m <= t.len(),
        forall|k: int| m <= k < t.len() ==> is_space(t[k]),
        m > 0 ==> !is_space(t[m - 1]),
    ensures
        trim_end(t) == t.take(m),
    decreases t.len(),
{
    if t.len() == m {
        assert(t.take(m) =~= t);
    } else {
        assert(is_space(t[t.len() - 1]));
        assert forall|k: int| m <= k < t.drop_last().len() implies is_space(t.drop_last()[k]) by {
            assert(t.drop_last()[k] == t[k]);
        }
        if m > 0 {
            assert(t.drop_last()[m - 1] == t[m - 1]);
        }
        lemma_trim_end_take(t.drop_last(), m);
        assert(t.drop_last().take(m) =~= t.take(m));
    }
}

/// Remove leading and trailing whitespace, as read line input is cleaned
/// before it is interpreted.
pub fn trim_str<'a>(s: &'a str) -> (r: &'a str)
    ensures
        r@ == trimmed(s@),
{
    let n = s.unicode_len();
    let mut i: usize = 0;
    proof {
        assert(s@.skip(0) =~= s@);
    }
    while i < n && is_space_char(s.get_char(i))
        invariant
            n == s@.len(),
            i <= n,
            trim_start(s@) == trim_start(s@.skip(i as int)),
        decreases n - i,
    {
        proof {
            let t = s@.skip(i as int);
            assert(t[0] == s@[i as int]);
            assert(t.drop_first() =~= s@.skip(i as int + 1));
        }
        i += 1;
    }
    proof {
        let t = s@.skip(i as int);
        if i < n {
            assert(t[0] == s@[i as int]);
            assert(!is_space(t[0]));
        }
        assert(trim_start(s@) == t);
    }
    let mut j: usize = n;
    while j > i && is_space_char(s.get_char(j - 1))
        invariant
            n == s@.len(),
            i <= j <= n,
            forall|k: int| j <= k < n ==> is_space(s@[k]),
        decreases j,
    {
        j -= 1;
    }
    let r = s.substring_char(i, j);
    proof {
        let t = s@.skip(i as int);
        let m = j - i;
        assert forall|k: int| m <= k < t.len() implies is_space(t[k]) by {
            assert(t[k] == s@[k + i]);
        }
        if m > 0 {
            assert(t[m - 1] == s@[j - 1]);
        }
        lemma_trim_end_take(t, m as int);
        assert(t.take(m as int) =~= s@.subrange(i as int, j as int));
        assert(r@ == trimmed(s@));
    }
    r
}

/// Whether two pieces of text hold the same characters.
pub fn str_eq(a: &str, b: &str) -> (r: bool)
    ensures
        r == (a@ == b@),
{
    let na = a.unicode_len();
    let nb = b.unicode_len();
    if na != nb {
        return false;
    }
    let mut i: usize = 0;
    while i < na
        invariant
            na == a@.len(),
            na == b@.len(),
            i <= na,
            forall|k: int| 0 <= k < i ==> a@[k] == b@[k],
        decreases na - i,
    {
        if a.get_char(i) != b.get_char(i) {
            return false;
        }
        i += 1;
    }
    proof {
        assert(a@ =~= b@);
    }
    true
}

/// What a main-menu input line selects.
#[derive(Clone, Copy, Debug, PartialEq, Eq, Structural)]
pub enum MainChoice {
    StartStudy,
    Settings,
    Exit,
    Other,
}

/// The main menu's options, by the digit the user types.
pub open spec fn main_choice_of(t: Seq<char>) -> MainChoice {
    if t == ("1")@ {
        MainChoice::StartStudy
    } else if t == ("2")@ {
        MainChoice::Settings
    } else if t == ("3")@ {
        MainChoice::Exit
    } else {
        MainChoice::Other
    }
}

/// Interpret one main-menu input line, whitespace ignored at both ends.
pub fn parse_main_choice(input: &str) -> (r: MainChoice)
    ensures
        r == main_choice_of(trimmed(input@)),
{
    let t = trim_str(input);
    if str_eq(t, "1") {
        MainChoice::StartStudy
    } else if str_eq(t, "2") {
        MainChoice::Settings
    } else if str_eq(t, "3") {
        MainChoice::Exit
    } else {
        MainChoice::Other
    }
}

/// What the main menu must do next.
#[derive(Clone, Copy, Debug, PartialEq, Eq, Structural)]
pub enum MainMenuAction {
    /// Study mode was chosen but no credential is set: ask for one.
    PromptForApiKey,
    StartStudyMode,
    OpenSettings,
    ExitApp,
    InvalidChoice,
}

/// The main menu's decision for a choice, given whether the study-mode
/// credential is set.
pub open spec fn main_menu_action_of(choice: MainChoice, api_key_set: bool) -> MainMenuAction {
    match choice {
        MainChoice::StartStudy => if api_key_set {
            MainMenuAction::StartStudyMode
        } else {
            MainMenuAction::PromptForApiKey
        },
        MainChoice::Settings => MainMenuAction::OpenSettings,
        MainChoice::Exit => MainMenuAction::ExitApp,
        MainChoice::Other => MainMenuAction::InvalidChoice,
    }
}

/// Decide what the main menu does for one choice: study mode starts only
/// with a credential set, and is otherwise preceded by a prompt for one.
pub fn main_menu_action(choice: MainChoice, api_key_set: bool) -> (r: MainMenuAction)
    ensures
        r == main_menu_action_of(choice, api_key_set),
{
    match choice {
        MainChoice::StartStudy => if api_key_set {
            MainMenuAction::StartStudyMode
        } else {
            MainMenuAction::PromptForApiKey
        },
        MainChoice::Settings => MainMenuAction::OpenSettings,
        MainChoice::Exit => MainMenuAction::ExitApp,
        MainChoice::Other => MainMenuAction::InvalidChoice,
    }
}

/// What a settings-menu input line selects.
#[derive(Clone, Copy, Debug, PartialEq, Eq, Structural)]
pub enum SettingsChoice {
    ViewKey,
    SetKey,
    Exit,
    Other,
}

/// The settings menu's options, by the digit the user types.
pub open spec fn settings_choice_of(t: Seq<char>) -> SettingsChoice {
    if t == ("1")@ {
        SettingsChoice::ViewKey
    } else if t == ("2")@ {
        SettingsChoice::SetKey
    } else if t == ("3")@ {
        SettingsChoice::Exit
    } else {
        SettingsChoice::Other
    }
}

/// Interpret one settings-menu input line, whitespace ignored at both ends.
pub fn parse_settings_choice(input: &str) -> (r: SettingsChoice)
    ensures
        r == settings_choice_of(trimmed(input@)),
{
    let t = trim_str(input);
    if str_eq(t, "1") {
        SettingsChoice::ViewKey
    } else if str_eq(t, "2") {
        SettingsChoice::SetKey
    } else if str_eq(t, "3") {
        SettingsChoice::Exit
    } else {
        SettingsChoice::Other
    }
}

/// The explicit home of the study-mode credential. Whoever needs the
/// credential is handed this value; nothing else stores it.
pub struct Settings {
    pub api_key: Option<String>,
}

impl Settings {
    /// Settings as loaded at start-up.
    pub fn new(initial_api_key: Option<String>) -> (s: Settings)
        ensures
            s.api_key == initial_api_key,
    {
        Settings { api_key: initial_api_key }
    }

    /// Whether a credential is set.
    pub fn api_key_is_set(&self) -> (r: bool)
        ensures
            r == (self.api_key is Some),
    {
        match &self.api_key {
            Some(_) => true,
            None => false,
        }
    }

    /// Store an entered credential: the entry is trimmed, and kept exactly
    /// when something remains; a blank entry changes nothing. Returns
    /// whether the credential was stored.
    pub fn set_api_key(&mut self, entered: &str) -> (stored: bool)
        ensures
            stored == (trimmed(entered@).len() != 0),
            stored ==> (final(self).api_key matches Some(k) && k@ == trimmed(entered@)),
            !stored ==> final(self).api_key == old(self).api_key,
    {
        let t = trim_str(entered);
        if t.unicode_len() == 0 {
            false
        } else {
            self.api_key = Some(String::from_str(t));
            true
        }
    }
}

/// What study mode must do, given whether the topic query succeeded and how
/// many topics it returned.
#[derive(Clone, Copy, Debug, PartialEq, Eq, Structural)]
pub enum StudyAction {
    /// The local store could not be read: report and return to the menu.
    ReportDbError,
    /// The store holds no topics: point at the indexer and return.
    ReportNoTopics,
    /// Offer the topics for selection.
    SelectTopic,
}

/// Decide what study mode does once the topic query has run.
pub fn study_mode_action(topics_loaded: bool, topic_count: usize) -> (r: StudyAction)
    ensures
        r == (if !topics_loaded {
            StudyAction::ReportDbError
        } else if topic_count == 0 {
            StudyAction::ReportNoTopics
        } else {
            StudyAction::SelectTopic
        }),
{
    if !topics_loaded {
        StudyAction::ReportDbError
    } else if topic_count == 0 {
        StudyAction::ReportNoTopics
    } else {
        StudyAction::SelectTopic
    }
}

/// The path of the local question store, relative to the directory the
/// program is run from.
pub fn get_db_path() -> (r: String)
    ensures
        r@ == ("kubelingo.db")@,
{
    String::from_str("kubelingo.db")
}

} // verus!
