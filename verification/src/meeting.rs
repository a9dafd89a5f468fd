//! Meeting detection: decides from the names of the running processes and the
//! titles of the visible windows whether a meeting is in progress.

use crate::text::texts;
use vstd::prelude::*;
use vstd::string::*;

verus! {

/// `needle` occurs in `hay` as a contiguous run of characters.
pub open spec fn contains_substring(hay: Seq<char>, needle: Seq<char>) -> bool {
    exists|i: int|
        0 <= i && i + needle.len() <= hay.len() && #[trigger] hay.subrange(i, i + needle.len())
            == needle
}

/// The lower-case form of a text, as `str::to_lowercase` of the standard
/// library computes it.
pub uninterp spec fn lowercase_of(text: Seq<char>) -> Seq<char>;

/// The texts of a list of string literals.
pub open spec fn literal_texts(items: Seq<&'static str>) -> Seq<Seq<char>> {
    Seq::new(items.len(), |i: int| items[i]@)
}

/// Process names of desktop meeting applications.
pub open spec fn meeting_processes() -> Seq<Seq<char>> {
    seq!["zoom.exe"@, "teams.exe"@, "skype.exe"@, "webex.exe"@, "meet.exe"@]
}

/// Process names of browsers.
pub open spec fn browser_processes() -> Seq<Seq<char>> {
    seq![
        "chrome.exe"@,
        "firefox.exe"@,
        "msedge.exe"@,
        "opera.exe"@,
        "brave.exe"@,
        "vivaldi.exe"@,
        "iexplore.exe"@,
    ]
}

/// Fragments of window titles that meeting services show in a browser.
pub open spec fn meeting_indicators() -> Seq<Seq<char>> {
    seq![
        "google meet"@,
        "meet.google.com"@,
        "zoom meeting"@,
        "microsoft teams"@,
        "teams.microsoft.com"@,
        "webex meeting"@,
        "webex.com"@,
        "gotomeeting"@,
        "join.me"@,
        "bluejeans"@,
        "whereby.com"@,
        "discord"@,
        "slack call"@,
        "skype"@,
        "hangouts"@,
        "jitsi meet"@,
        "bigbluebutton"@,
        "8x8.vc"@,
        "ringcentral meetings"@,
        "cisco webex"@,
        "amazon chime"@,
        "facebook messenger rooms"@,
        "whatsapp web"@,
    ]
}

/// `text` contains one of `patterns`.
pub open spec fn contains_any(text: Seq<char>, patterns: Seq<Seq<char>>) -> bool {
    exists|j: int| 0 <= j < patterns.len() && contains_substring(text, #[trigger] patterns[j])
}

/// `text`, taken in lower case, contains one of `patterns`.
pub open spec fn matches_any(text: Seq<char>, patterns: Seq<Seq<char>>) -> bool {
    contains_any(lowercase_of(text), patterns)
}

/// One of `items` matches one of `patterns`.
pub open spec fn any_matches(items: Seq<Seq<char>>, patterns: Seq<Seq<char>>) -> bool {
    exists|i: int| 0 <= i < items.len() && matches_any(#[trigger] items[i], patterns)
}

/// A browser is running and a visible window's title names a meeting service.
pub open spec fn browser_meeting_spec(processes: Seq<Seq<char>>, titles: Seq<Seq<char>>) -> bool {
    any_matches(processes, browser_processes()) && any_matches(titles, meeting_indicators())
}

/// A meeting is in progress: a desktop meeting application is running, or,
/// where window titles can be had, a browser shows a meeting.
pub open spec fn meeting_active_spec(
    processes: Seq<Seq<char>>,
    titles: Option<Seq<Seq<char>>>,
) -> bool {
    any_matches(processes, meeting_processes()) || match titles {
        Some(t) => browser_meeting_spec(processes, t),
        None => false,
    }
}

/// Process names of desktop meeting applications.
pub fn meeting_process_names() -> (names: Vec<&'static str>)
    ensures
        literal_texts(names@) == meeting_processes(),
{
    let names = vec!["zoom.exe", "teams.exe", "skype.exe", "webex.exe", "meet.exe"];
    assert(literal_texts(names@) =~= meeting_processes());
    names
}

/// Process names of browsers.
pub fn browser_process_names() -> (names: Vec<&'static str>)
    ensures
        literal_texts(names@) == browser_processes(),
{
    let names = vec![
        "chrome.exe",
        "firefox.exe",
        "msedge.exe",
        "opera.exe",
        "brave.exe",
        "vivaldi.exe",
        "iexplore.exe",
    ];
    assert(literal_texts(names@) =~= browser_processes());
    names
}

/// Fragments of window titles that meeting services show in a browser.
pub fn meeting_indicator_texts() -> (names: Vec<&'static str>)
    ensures
        literal_texts(names@) == meeting_indicators(),
{
    let names = vec![
        "google meet",
        "meet.google.com",
        "zoom meeting",
        "microsoft teams",
        "teams.microsoft.com",
        "webex meeting",
        "webex.com",
        "gotomeeting",
        "join.me",
        "bluejeans",
        "whereby.com",
        "discord",
        "slack call",
        "skype",
        "hangouts",
        "jitsi meet",
        "bigbluebutton",
        "8x8.vc",
        "ringcentral meetings",
        "cisco webex",
        "amazon chime",
        "facebook messenger rooms",
        "whatsapp web",
    ];
    assert(literal_texts(names@) =~= meeting_indicators());
    names
}

/// The lower-case form of `text`. Calls `str::to_lowercase` of the standard
/// library; the result is named, not described.
#[verifier::external_body]
fn to_lowercase(text: &str) -> (lower: String)
    ensures
        lower@ == lowercase_of(text@),
{
    text.to_lowercase()
}

/// Whether `needle` occurs in `hay`. Calls `str::contains` of the standard
/// library with a string pattern, which is true exactly when the pattern
/// matches a sub-slice of the string.
#[verifier::external_body]
fn str_contains(hay: &str, needle: &str) -> (found: bool)
    ensures
        found == contains_substring(hay@, needle@),
{
    hay.contains(needle)
}

/// Whether `text` as it stands contains one of `patterns`.
pub fn contains_any_of(text: &str, patterns: &Vec<&'static str>) -> (found: bool)
    ensures
        found == contains_any(text@, literal_texts(patterns@)),
{
    let ghost pats = literal_texts(patterns@);
    let mut j: usize = 0;
    while j < patterns.len()
        invariant
            j <= patterns.len(),
            pats == literal_texts(patterns@),
            forall|k: int| 0 <= k < j ==> !contains_substring(text@, #[trigger] pats[k]),
        decreases patterns.len() - j,
    {
        if str_contains(text, patterns[j]) {
            assert(contains_substring(text@, pats[j as int]));
            return true;
        }
        j += 1;
    }
    false
}

/// Whether `text`, taken in lower case, contains one of `patterns`.
pub fn text_matches_any(text: &str, patterns: &Vec<&'static str>) -> (found: bool)
    ensures
        found == matches_any(text@, literal_texts(patterns@)),
{
    let lower = to_lowercase(text);
    contains_any_of(lower.as_str(), patterns)
}

/// Whether one of `items` matches one of `patterns`.
pub fn any_text_matches(items: &Vec<String>, patterns: &Vec<&'static str>) -> (found: bool)
    ensures
        found == any_matches(texts(items@), literal_texts(patterns@)),
{
    let ghost all = texts(items@);
    let mut i: usize = 0;
    while i < items.len()
        invariant
            i <= items.len(),
            all == texts(items@),
            forall|k: int| 0 <= k < i ==> !matches_any(#[trigger] all[k], literal_texts(patterns@)),
        decreases items.len() - i,
    {
        if text_matches_any(items[i].as_str(), patterns) {
            assert(matches_any(all[i as int], literal_texts(patterns@)));
            return true;
        }
        i += 1;
    }
    false
}

/// Whether a browser shows a meeting: a known browser is among the running
/// processes and the title of a visible window contains a known fragment.
/// Names and titles are compared in lower case.
pub fn check_browser_meetings(process_names: &Vec<String>, window_titles: &Vec<String>) -> (found:
    bool)
    ensures
        found == browser_meeting_spec(texts(process_names@), texts(window_titles@)),
{
    let browsers = browser_process_names();
    if !any_text_matches(process_names, &browsers) {
        return false;
    }
    let indicators = meeting_indicator_texts();
    any_text_matches(window_titles, &indicators)
}

/// The titles that the detector was given, as texts.
pub open spec fn title_texts(window_titles: Option<&Vec<String>>) -> Option<Seq<Seq<char>>> {
    match window_titles {
        Some(titles) => Some(texts(titles@)),
        None => None,
    }
}

/// Whether a meeting is in progress. `window_titles` is `None` where the
/// platform cannot list window titles; detection then goes by process names
/// alone.
pub fn is_meeting_active(process_names: &Vec<String>, window_titles: Option<&Vec<String>>) -> (active:
    bool)
    ensures
        active == meeting_active_spec(texts(process_names@), title_texts(window_titles)),
{
    let desktop = meeting_process_names();
    if any_text_matches(process_names, &desktop) {
        return true;
    }
    match window_titles {
        Some(titles) => check_browser_meetings(process_names, titles),
        None => false,
    }
}

/// What the check for a meeting in a browser reports.
pub open spec fn browser_report_spec(processes: Seq<Seq<char>>, titles: Option<Seq<Seq<char>>>) -> Seq<
    char,
> {
    match titles {
        Some(t) => if browser_meeting_spec(processes, t) {
            "Browser meeting detected"@
        } else {
            "No browser meeting detected"@
        },
        None => "Browser meeting detection only supported on Windows"@,
    }
}

/// Reports in words whether a browser shows a meeting, or that the platform
/// cannot tell.
pub fn check_browser_meeting_debug(
    process_names: &Vec<String>,
    window_titles: Option<&Vec<String>>,
) -> (report: String)
    ensures
        report@ == browser_report_spec(texts(process_names@), title_texts(window_titles)),
{
    match window_titles {
        Some(titles) => {
            if check_browser_meetings(process_names, titles) {
                String::from_str("Browser meeting detected")
            } else {
                String::from_str("No browser meeting detected")
            }
        },
        None => String::from_str("Browser meeting detection only supported on Windows"),
    }
}

/// Decides on which ticks the meeting detector is asked: on the first, and
/// then on every `period`-th. A period of zero counts as one.
pub struct MeetingSampler {
    period: u32,
    waited: u32,
}

impl MeetingSampler {
    /// Ticks from one sample to the next.
    pub closed spec fn period(&self) -> u32 {
        self.period
    }

    /// Ticks since the last sample, the coming one not counted.
    pub closed spec fn waited(&self) -> u32 {
        self.waited
    }

    /// The coming tick is one on which the detector is asked.
    pub open spec fn is_due(&self) -> bool {
        self.waited() + 1 >= self.period()
    }

    /// A sampler that asks on the first tick and then on every `period`-th.
    pub fn new(period: u32) -> (sampler: MeetingSampler)
        ensures
            sampler.period() == period,
            sampler.waited() == if period > 0 {
                period - 1
            } else {
                0
            },
            sampler.is_due(),
    {
        let waited: u32 = if period > 0 {
            period - 1
        } else {
            0
        };
        MeetingSampler { period, waited }
    }

    /// Counts one tick and says whether the detector is to be asked on it.
    /// After a tick on which it was asked, the count starts again.
    pub fn due(&mut self) -> (ask: bool)
        ensures
            ask == old(self).is_due(),
            final(self).period() == old(self).period(),
            ask ==> final(self).waited() == 0,
            !ask ==> final(self).waited() == old(self).waited() + 1,
    {
        if self.waited as u64 + 1 >= self.period as u64 {
            self.waited = 0;
            true
        } else {
            self.waited = self.waited + 1;
            false
        }
    }
}

} // verus!
