//! The browser layer: what it decides about pages, URLs, selectors and errors.
use vstd::prelude::*;

use crate::config::AppConfig;
use crate::errors::AppError;
use crate::models::JobListing;
use crate::services::actions::{BrowserAction, HUMAN_DELAY_MS};
use crate::services::apply_flow::{apply_at, ApplyFlow, ApplyStage};
use crate::services::login_flow::{login_at, LoginFlow, LoginStage};
use crate::services::search_flow::{search_initial, SearchFlow, SearchStage};
use crate::text::{
    join, lemma_split_on_nonempty, split_on, is_white_space, law_trim_shape, lemma_starts_with_append, lemma_trim_fixed,
    ascii_lower, ascii_lowercase, occurs_at, ascii_lowercase_str, chars_contain, collapse_whitespace,
    collapse_whitespace_str, owned, push_char, seq_contains, starts_with,
    str_has_char, str_starts_with, strip_trailing, strip_trailing_str, to_chars, trim, trim_str,
};
use crate::url::{url_encode, url_encoded};

verus! {

/// Drives Chrome through ChromeDriver with the configured persistent profile.
#[derive(Debug)]
pub struct BrowserService {
    config: AppConfig,
}

impl BrowserService {
    /// A browser service over `config`.
    pub fn new(config: AppConfig) -> (r: Self)
        ensures
            r.config() == config,
    {
        BrowserService { config }
    }

    /// The configuration of the service.
    pub closed spec fn config(&self) -> AppConfig {
        self.config
    }

    /// The configuration of the service.
    pub fn config_ref(&self) -> (r: &AppConfig)
        ensures
            *r == self.config(),
    {
        &self.config
    }
}

/// What the ChromeDriver status endpoint answered.
#[derive(Debug, Clone)]
pub enum DriverProbe {
    /// An HTTP answer with its status code and its status line text (such as
    /// `404 Not Found`).
    Responded { code: u16, status_text: String },
    /// No HTTP answer.
    Unreachable,
}

/// What Chrome is started with: its command-line arguments and its
/// experimental options.
#[derive(Debug, Clone)]
pub struct ChromeLaunchPlan {
    pub args: Vec<String>,
    /// The `excludeSwitches` option.
    pub exclude_switches: Vec<String>,
    /// The `useAutomationExtension` option.
    pub use_automation_extension: bool,
    /// The `intl.accept_languages` preference.
    pub accept_languages: String,
    /// The `translate.enabled` preference.
    pub translate_enabled: bool,
}

/// The views of a sequence of strings.
pub open spec fn strings_view(v: Seq<String>) -> Seq<Seq<char>> {
    v.map_values(|s: String| s@)
}

/// The Chrome arguments: the profile directory, switches that quiet Chrome's
/// background activity and logging, a fixed window size, and headless mode
/// when asked for.
pub open spec fn chrome_args(profile_dir: Seq<char>, headless: bool) -> Seq<Seq<char>> {
    seq![
        "--user-data-dir="@ + profile_dir,
        "--disable-gpu"@,
        "--disable-dev-shm-usage"@,
        "--disable-background-networking"@,
        "--disable-client-side-phishing-detection"@,
        "--disable-component-update"@,
        "--disable-default-apps"@,
        "--disable-domain-reliability"@,
        "--disable-extensions"@,
        "--disable-logging"@,
        "--disable-notifications"@,
        "--disable-sync"@,
        "--no-first-run"@,
        "--no-default-browser-check"@,
        "--no-pings"@,
        "--log-level=3"@,
        "--silent"@,
        "--v=0"@,
        "--remote-debugging-port=0"@,
        "--safebrowsing-disable-auto-update"@,
        "--disable-features=AutofillServerCommunication,CalculateNativeWinOcclusion,CertificateTransparencyComponentUpdater,GlobalMediaControls,InterestFeedContentSuggestions,MediaRouter,NotificationTriggers,OptimizationHints,PushMessaging"@,
        "--window-size=1365,900"@,
    ] + if headless {
        seq!["--headless=new"@]
    } else {
        seq![]
    }
}

/// An HH.ru link made absolute: absolute `http(s)` links are kept,
/// protocol-relative ones get `https:`, site-relative ones get
/// `https://hh.ru`; an empty link stays empty.
pub open spec fn normalized_url(href: Seq<char>) -> Seq<char> {
    let h = trim(href);
    if starts_with(h, "http://"@) || starts_with(h, "https://"@) {
        h
    } else if starts_with(h, "//"@) {
        "https:"@ + h
    } else if starts_with(h, "/"@) {
        "https://hh.ru"@ + h
    } else if h.len() == 0 {
        seq![]
    } else {
        "https://hh.ru/"@ + h
    }
}

/// WebDriver messages that mean the user closed the browser window.
pub open spec fn manual_close_message(m: Seq<char>) -> bool {
    let l = ascii_lowercase(m);
    ||| seq_contains(l, "invalid session id"@)
    ||| seq_contains(l, "session deleted"@)
    ||| seq_contains(l, "no such window"@)
    ||| seq_contains(l, "target window already closed"@)
    ||| seq_contains(l, "web view not found"@)
    ||| seq_contains(l, "disconnected"@)
}

/// A browser error caused by the user closing the browser window.
pub open spec fn is_manual_close(e: AppError) -> bool {
    match e {
        AppError::Browser(m) => manual_close_message(m@),
        _ => false,
    }
}

/// WebDriver messages that mean an element could not take input or a click.
pub open spec fn non_interactable_message(m: Seq<char>) -> bool {
    let l = ascii_lowercase(m);
    ||| seq_contains(l, "element not interactable"@)
    ||| seq_contains(l, "element click intercepted"@)
    ||| seq_contains(l, "element is not clickable"@)
    ||| seq_contains(l, "other element would receive the click"@)
    ||| seq_contains(l, "not reachable by keyboard"@)
}

/// WebDriver session-creation messages that mean the Chrome profile is locked
/// by another Chrome.
pub open spec fn profile_in_use_message(m: Seq<char>) -> bool {
    let l = ascii_lowercase(m);
    ||| seq_contains(l, "user data directory is already in use"@)
    ||| seq_contains(l, "profile appears to be in use"@)
    ||| (seq_contains(l, "chrome failed to start"@) && seq_contains(l, "devtoolsactiveport"@))
}

/// The employer name shown for a card: its cleaned text, or `Unknown` when
/// the card has none or it is blank.
pub open spec fn employer_name(employer_text: Option<String>) -> Seq<char> {
    match employer_text {
        Some(t) => if collapse_whitespace(t@).len() == 0 {
            "Unknown"@
        } else {
            collapse_whitespace(t@)
        },
        None => "Unknown"@,
    }
}

/// The link of a card, made absolute; a card without a link has an empty one.
pub open spec fn listing_url(href: Option<String>) -> Seq<char> {
    match href {
        Some(h) => normalized_url(h@),
        None => normalized_url(Seq::empty()),
    }
}

fn lower_contains(lower: &Vec<char>, needle: &str) -> (r: bool)
    ensures
        r == seq_contains(lower@, needle@),
{
    let n = to_chars(needle);
    chars_contain(lower, &n)
}

/// Collapses the whitespace that browsers report inside element text.
pub fn clean_text(value: String) -> (r: String)
    ensures
        r@ == collapse_whitespace(value@),
{
    collapse_whitespace_str(value.as_str())
}

fn concat2(a: &str, b: &str) -> (r: String)
    ensures
        r@ == a@ + b@,
{
    let mut s = owned(a);
    s.append(b);
    s
}

/// Makes a vacancy link from a search card absolute.
pub fn normalize_hh_url(href: &str) -> (r: String)
    ensures
        r@ == normalized_url(href@),
{
    let h = trim_str(href);
    if str_starts_with(h.as_str(), "http://") || str_starts_with(h.as_str(), "https://") {
        return h;
    }
    if str_starts_with(h.as_str(), "//") {
        return concat2("https:", h.as_str());
    }
    if str_starts_with(h.as_str(), "/") {
        return concat2("https://hh.ru", h.as_str());
    }
    if h.as_str().unicode_len() == 0 {
        return String::new();
    }
    concat2("https://hh.ru/", h.as_str())
}

/// Whether a browser error means that the user closed the browser window.
pub fn is_manual_browser_close_error(err: &AppError) -> (r: bool)
    ensures
        r == is_manual_close(*err),
{
    match err {
        AppError::Browser(message) => {
            let l = ascii_lowercase_str(message.as_str());
            lower_contains(&l, "invalid session id") || lower_contains(&l, "session deleted")
                || lower_contains(&l, "no such window") || lower_contains(
                &l,
                "target window already closed",
            ) || lower_contains(&l, "web view not found") || lower_contains(&l, "disconnected")
        },
        _ => false,
    }
}

/// Whether a WebDriver error message means that the element could not take
/// input or a click.
pub fn is_non_interactable_webdriver_error(message: &str) -> (r: bool)
    ensures
        r == non_interactable_message(message@),
{
    let l = ascii_lowercase_str(message);
    lower_contains(&l, "element not interactable") || lower_contains(
        &l,
        "element click intercepted",
    ) || lower_contains(&l, "element is not clickable") || lower_contains(
        &l,
        "other element would receive the click",
    ) || lower_contains(&l, "not reachable by keyboard")
}

/// Builds a listing from what a search card shows: the text of its title
/// link, the link's `href` and the text of its employer element. A card whose
/// cleaned title or absolute link is empty gives no listing.
pub fn listing_from_parts(title_text: String, href: Option<String>, employer_text: Option<String>) -> (r: Option<JobListing>)
    ensures
        r is None <==> (collapse_whitespace(title_text@).len() == 0 || listing_url(href).len() == 0),
        r is Some ==> {
            &&& r->0.title@ == collapse_whitespace(title_text@)
            &&& r->0.url@ == listing_url(href)
            &&& r->0.employer@ == employer_name(employer_text)
            &&& r->0.description@ == Seq::<char>::empty()
        },
{
    let title = clean_text(title_text);
    let url = match &href {
        Some(h) => normalize_hh_url(h.as_str()),
        None => normalize_hh_url(""),
    };
    proof {
        reveal_strlit("");
        assert(""@ =~= Seq::<char>::empty());
    }
    let employer = match employer_text {
        Some(t) => {
            let e = clean_text(t);
            if e.as_str().unicode_len() == 0 {
                owned("Unknown")
            } else {
                e
            }
        },
        None => owned("Unknown"),
    };
    if title.as_str().unicode_len() == 0 || url.as_str().unicode_len() == 0 {
        return None;
    }
    Some(JobListing { title, url, employer, description: String::new() })
}

/// A normalised link is empty exactly when the link was blank, and is otherwise
/// an absolute `http://` or `https://` address; normalising it again changes
/// nothing.
pub proof fn law_normalized_url_absolute_and_stable(href: Seq<char>)
    ensures
        normalized_url(href).len() == 0 <==> trim(href).len() == 0,
        normalized_url(href).len() == 0 || starts_with(normalized_url(href), "http://"@)
            || starts_with(normalized_url(href), "https://"@),
        normalized_url(normalized_url(href)) == normalized_url(href),
{
    reveal_strlit("http://");
    reveal_strlit("https://");
    reveal_strlit("https:");
    reveal_strlit("//");
    reveal_strlit("/");
    reveal_strlit("https://hh.ru");
    reveal_strlit("https://hh.ru/");
    law_trim_shape(href);
    let h = trim(href);
    let n = normalized_url(href);
    if starts_with(h, "http://"@) || starts_with(h, "https://"@) {
        assert(n == h);
    } else if starts_with(h, "//"@) {
        assert(n == "https:"@ + h);
        assert(n.subrange(0, 8) =~= "https://"@) by {
            assert(h.subrange(0, 2) == "//"@);
            assert(h.subrange(0, 2)[0] == '/' && h.subrange(0, 2)[1] == '/');
            assert(h[0] == '/' && h[1] == '/');
        }
        assert(n[0] == 'h');
        assert(n.last() == h.last());
        lemma_trim_fixed(n);
    } else if starts_with(h, "/"@) {
        assert(n == "https://hh.ru"@ + h);
        assert(starts_with("https://hh.ru"@, "https://"@)) by {
            assert("https://hh.ru"@.subrange(0, 8) =~= "https://"@);
        }
        lemma_starts_with_append("https://hh.ru"@, h, "https://"@);
        assert(n[0] == 'h');
        assert(n.last() == h.last());
        lemma_trim_fixed(n);
    } else if h.len() == 0 {
        assert(n.len() == 0);
        assert(trim(n) =~= n);
    } else {
        assert(n == "https://hh.ru/"@ + h);
        assert(starts_with("https://hh.ru/"@, "https://"@)) by {
            assert("https://hh.ru/"@.subrange(0, 8) =~= "https://"@);
        }
        lemma_starts_with_append("https://hh.ru/"@, h, "https://"@);
        assert(n[0] == 'h');
        assert(n.last() == h.last());
        lemma_trim_fixed(n);
    }
}

/// `p` between apostrophes.
pub open spec fn quoted(p: Seq<char>) -> Seq<char> {
    "'"@ + p + "'"@
}

/// The separator between the pieces of a `concat(...)` literal: an apostrophe
/// given as a double-quoted string.
pub open spec fn apostrophe_separator() -> Seq<char> {
    ", \"'\", "@
}

/// The pieces of `s` between apostrophes, each between apostrophes, joined
/// with the apostrophe separator.
pub open spec fn quoted_pieces(s: Seq<char>) -> Seq<char> {
    join(split_on(s, '\'').map_values(|p: Seq<char>| quoted(p)), apostrophe_separator())
}

/// An XPath expression whose string value is `v`: `v` between apostrophes if
/// it has none, else between double quotes if it has none, else a `concat` of
/// its apostrophe-free pieces and quoted apostrophes.
pub open spec fn xpath_literal_of(v: Seq<char>) -> Seq<char> {
    if !v.contains('\'') {
        "'"@ + v + "'"@
    } else if !v.contains('"') {
        "\""@ + v + "\""@
    } else {
        "concat("@ + quoted_pieces(v) + ")"@
    }
}

proof fn lemma_quoted_pieces_step(s: Seq<char>, x: char)
    ensures
        quoted_pieces(s).len() > 0 && quoted_pieces(s).last() == '\'',
        quoted_pieces(s.push(x)) == if x == '\'' {
            quoted_pieces(s) + apostrophe_separator() + "''"@
        } else {
            quoted_pieces(s).drop_last() + seq![x, '\'']
        },
{
    reveal_strlit("'");
    reveal_strlit("''");
    let f = |p: Seq<char>| quoted(p);
    let sep = apostrophe_separator();
    lemma_split_on_nonempty(s, '\'');
    let p = split_on(s, '\'');
    let q = p.map_values(f);
    assert(s.push(x).drop_last() =~= s);
    assert(q.last() == quoted(p.last()));
    assert(join(q, sep).len() > 0 && join(q, sep).last() == '\'') by {
        if q.len() == 1 {
            assert(join(q, sep) == q[0]);
        } else {
            assert(join(q, sep) == join(q.drop_last(), sep) + sep + q.last());
        }
    }
    if x == '\'' {
        let p2 = p.push(seq![]);
        assert(split_on(s.push(x), '\'') == p2);
        let q2 = p2.map_values(f);
        assert(q2 =~= q.push(quoted(seq![])));
        assert(quoted(seq![]) =~= "''"@);
        assert(q2.drop_last() =~= q);
    } else {
        let p2 = p.update(p.len() - 1, p.last().push(x));
        assert(split_on(s.push(x), '\'') == p2);
        let q2 = p2.map_values(f);
        assert(q2 =~= q.update(q.len() - 1, quoted(p.last().push(x))));
        assert(quoted(p.last().push(x)) =~= quoted(p.last()).drop_last() + seq![x, '\'']);
        if q.len() == 1 {
            assert(join(q2, sep) == q2[0]);
            assert(join(q, sep) == q[0]);
        } else {
            assert(q2.drop_last() =~= q.drop_last());
            assert(join(q2, sep) == join(q.drop_last(), sep) + sep + q2.last());
            assert(join(q, sep) == join(q.drop_last(), sep) + sep + q.last());
            assert(join(q2, sep) =~= join(q, sep).drop_last() + seq![x, '\'']);
        }
    }
}

/// An XPath expression whose value is `value`, for matching attribute values
/// that may hold apostrophes and double quotes.
pub fn xpath_literal(value: &str) -> (r: String)
    ensures
        r@ == xpath_literal_of(value@),
{
    if !str_has_char(value, '\'') {
        let mut r = owned("'");
        r.append(value);
        r.append("'");
        return r;
    }
    if !str_has_char(value, '"') {
        let mut r = owned("\"");
        r.append(value);
        r.append("\"");
        return r;
    }
    let v = to_chars(value);
    let mut out = owned("concat('");
    let mut i: usize = 0;
    proof {
        reveal_strlit("concat('");
        reveal_strlit("concat(");
        reveal_strlit("'");
        lemma_quoted_pieces_step(Seq::empty(), 'a');
        assert(split_on(Seq::<char>::empty(), '\'') =~= seq![seq![]]);
        assert(quoted_pieces(Seq::empty()) =~= quoted(seq![]));
        assert(v@.take(0) =~= Seq::<char>::empty());
        assert(out@ + "'"@ =~= "concat("@ + quoted_pieces(v@.take(0)));
    }
    while i < v.len()
        invariant
            i <= v.len(),
            v@ == value@,
            out@ + "'"@ == "concat("@ + quoted_pieces(v@.take(i as int)),
        decreases v.len() - i,
    {
        let ch = v[i];
        proof {
            lemma_quoted_pieces_step(v@.take(i as int), ch);
            assert(v@.take(i as int).push(ch) =~= v@.take(i + 1));
            reveal_strlit("'");
            reveal_strlit("''");
            reveal_strlit("', \"'\", '");
            reveal_strlit(", \"'\", ");
        }
        let ghost before = out@;
        if ch == '\'' {
            out.append("', \"'\", '");
            assert(out@ + "'"@ =~= before + "'"@ + apostrophe_separator() + "''"@);
        } else {
            push_char(&mut out, ch);
            assert(before =~= (before + "'"@).drop_last());
            assert(out@ + "'"@ =~= (before + "'"@).drop_last() + seq![ch, '\'']);
        }
        i = i + 1;
    }
    proof {
        assert(v@.take(v.len() as int) =~= v@);
        reveal_strlit("')");
        reveal_strlit(")");
        reveal_strlit("'");
    }
    let ghost before = out@;
    out.append("')");
    assert(out@ =~= before + "'"@ + ")"@);
    out
}

impl BrowserService {
    /// The search flow for the search page `search_url` over the current
    /// configuration: a session in the configured headless mode, the
    /// configured page timeout, and descriptions when asked for. It begins
    /// with the human-like pause.
    pub fn begin_search(&self, search_url: String, include_description: bool) -> (r: (SearchFlow, BrowserAction))
        ensures
            r.0@ == search_initial(
                search_url@,
                self.config().browser_headless,
                self.config().page_timeout,
                include_description,
            ),
            r.0.stage == SearchStage::Pause,
            r.0.search_url == search_url,
            r.0.headless == self.config().browser_headless,
            r.0.page_timeout == self.config().page_timeout,
            r.0.include_description == include_description,
            r.0.cards == 0,
            r.0.listings@.len() == 0,
            r.0.descriptions@.len() == 0,
            r.0.error is None,
            r.0.pending is None,
            r.0.wf(),
            r.1 == BrowserAction::Sleep(HUMAN_DELAY_MS),
    {
        SearchFlow::start(search_url, self.config.browser_headless, self.config.page_timeout, include_description)
    }

    /// The apply flow for a request with or without a resume id. It always
    /// uses a visible browser.
    pub fn begin_apply(&self, has_resume: bool) -> (r: (ApplyFlow, BrowserAction))
        ensures
            r == apply_at(
                ApplyFlow { stage: ApplyStage::CheckDriver, has_resume, error: None },
                ApplyStage::CheckDriver,
            ),
    {
        ApplyFlow::start(has_resume)
    }

    /// The manual login flow, in the configured headless mode.
    pub fn begin_login(&self) -> (r: (LoginFlow, BrowserAction))
        ensures
            r == login_at(
                LoginFlow {
                    stage: LoginStage::CheckDriver,
                    headless: self.config().browser_headless,
                    error: None,
                },
                LoginStage::CheckDriver,
            ),
    {
        LoginFlow::start(self.config.browser_headless)
    }

    /// The error for a failed WebDriver session creation: `ProfileInUse` with
    /// the configured profile directory when the message says the profile is
    /// locked, otherwise a browser error with the message.
    pub fn classify_driver_error(&self, message: &str) -> (r: AppError)
        ensures
            profile_in_use_message(message@) ==> r is ProfileInUse && r->ProfileInUse_0@
                == self.config().browser_profile_dir@,
            !profile_in_use_message(message@) ==> r is Browser && r->Browser_0@ == message@,
    {
        let l = ascii_lowercase_str(message);
        if lower_contains(&l, "user data directory is already in use") || lower_contains(
            &l,
            "profile appears to be in use",
        ) || (lower_contains(&l, "chrome failed to start") && lower_contains(
            &l,
            "devtoolsactiveport",
        )) {
            return AppError::ProfileInUse(self.config.browser_profile_dir.clone());
        }
        AppError::Browser(owned(message))
    }

    /// The ChromeDriver status endpoint: the driver address without trailing
    /// slashes, then `/status`.
    pub fn driver_status_url(&self) -> (r: String)
        ensures
            r@ == strip_trailing(self.config().browser_driver_url@, '/') + "/status"@,
    {
        let mut u = strip_trailing_str(self.config.browser_driver_url.as_str(), '/');
        u.append("/status");
        u
    }

    /// Whether ChromeDriver is available, from what its status endpoint
    /// answered: any 2xx answer means available; another answer or none is
    /// `DriverUnavailable`, naming the driver address (and the answer).
    pub fn driver_status_outcome(&self, probe: DriverProbe) -> (r: Result<(), AppError>)
        ensures
            match probe {
                DriverProbe::Responded { code, status_text } => if 200 <= code && code < 300 {
                    r is Ok
                } else {
                    r is Err && r->Err_0 is DriverUnavailable && r->Err_0->DriverUnavailable_0@
                        == self.config().browser_driver_url@ + " returned HTTP "@ + status_text@
                },
                DriverProbe::Unreachable => r is Err && r->Err_0 is DriverUnavailable
                    && r->Err_0->DriverUnavailable_0@ == self.config().browser_driver_url@,
            },
    {
        match probe {
            DriverProbe::Responded { code, status_text } => {
                if 200 <= code && code < 300 {
                    Ok(())
                } else {
                    let mut m = self.config.browser_driver_url.clone();
                    m.append(" returned HTTP ");
                    m.append(status_text.as_str());
                    Err(AppError::DriverUnavailable(m))
                }
            },
            DriverProbe::Unreachable => Err(
                AppError::DriverUnavailable(self.config.browser_driver_url.clone()),
            ),
        }
    }

    /// The HH.ru login page in the configured locale.
    pub fn login_url(&self) -> (r: String)
        ensures
            r@ == "https://hh.ru/account/login?locale="@ + url_encoded(self.config().hh_locale@),
    {
        let mut u = owned("https://hh.ru/account/login?locale=");
        let l = url_encode(self.config.hh_locale.as_str());
        u.append(l.as_str());
        u
    }

    /// How Chrome is started for the profile directory `profile_dir`: the
    /// arguments of `chrome_args`, logging switched off, no automation
    /// extension, English accept-languages and translation enabled.
    pub fn chrome_capabilities(&self, profile_dir: &str, headless: bool) -> (r: ChromeLaunchPlan)
        ensures
            strings_view(r.args@) == chrome_args(profile_dir@, headless),
            strings_view(r.exclude_switches@) == seq!["enable-logging"@],
            !r.use_automation_extension,
            r.accept_languages@ == "en-US,en"@,
            r.translate_enabled,
    {
        let mut args: Vec<String> = Vec::new();
        args.push(concat2("--user-data-dir=", profile_dir));
        args.push(owned("--disable-gpu"));
        args.push(owned("--disable-dev-shm-usage"));
        args.push(owned("--disable-background-networking"));
        args.push(owned("--disable-client-side-phishing-detection"));
        args.push(owned("--disable-component-update"));
        args.push(owned("--disable-default-apps"));
        args.push(owned("--disable-domain-reliability"));
        args.push(owned("--disable-extensions"));
        args.push(owned("--disable-logging"));
        args.push(owned("--disable-notifications"));
        args.push(owned("--disable-sync"));
        args.push(owned("--no-first-run"));
        args.push(owned("--no-default-browser-check"));
        args.push(owned("--no-pings"));
        args.push(owned("--log-level=3"));
        args.push(owned("--silent"));
        args.push(owned("--v=0"));
        args.push(owned("--remote-debugging-port=0"));
        args.push(owned("--safebrowsing-disable-auto-update"));
        args.push(
            owned(
                "--disable-features=AutofillServerCommunication,CalculateNativeWinOcclusion,CertificateTransparencyComponentUpdater,GlobalMediaControls,InterestFeedContentSuggestions,MediaRouter,NotificationTriggers,OptimizationHints,PushMessaging",
            ),
        );
        args.push(owned("--window-size=1365,900"));
        if headless {
            args.push(owned("--headless=new"));
        }
        let mut exclude_switches: Vec<String> = Vec::new();
        exclude_switches.push(owned("enable-logging"));
        assert(strings_view(args@) =~= chrome_args(profile_dir@, headless));
        assert(strings_view(exclude_switches@) =~= seq!["enable-logging"@]);
        ChromeLaunchPlan {
            args,
            exclude_switches,
            use_automation_extension: false,
            accept_languages: owned("en-US,en"),
            translate_enabled: true,
        }
    }
}

proof fn lemma_phrase_found(p: Seq<char>, ph: Seq<char>, q: Seq<char>)
    requires
        ascii_lowercase(ph) == ph,
    ensures
        seq_contains(ascii_lowercase(p + ph + q), ph),
{
    let l = ascii_lowercase(p + ph + q);
    let i = p.len() as int;
    assert forall|k: int| 0 <= k < ph.len() implies #[trigger] l.subrange(i, i + ph.len())[k]
        == ph[k] by {
        assert((p + ph + q)[i + k] == ph[k]);
        assert(ascii_lowercase(ph)[k] == ascii_lower(ph[k]));
    }
    assert(l.subrange(i, i + ph.len()) =~= ph);
    assert(occurs_at(l, ph, i));
}

/// A browser error whose message mentions, in any ASCII case, an invalid or
/// deleted session, a missing or closed window, a missing web view or a
/// disconnection means that the user closed the browser; no other kind of
/// error does.
pub proof fn law_manual_close_messages(p: Seq<char>, q: Seq<char>, e: AppError)
    ensures
        manual_close_message(p + "invalid session id"@ + q),
        manual_close_message(p + "session deleted"@ + q),
        manual_close_message(p + "no such window"@ + q),
        manual_close_message(p + "target window already closed"@ + q),
        manual_close_message(p + "web view not found"@ + q),
        manual_close_message(p + "disconnected"@ + q),
        !(e is Browser) ==> !is_manual_close(e),
{
    reveal_strlit("invalid session id");
    reveal_strlit("session deleted");
    reveal_strlit("no such window");
    reveal_strlit("target window already closed");
    reveal_strlit("web view not found");
    reveal_strlit("disconnected");
    assert(ascii_lowercase("invalid session id"@) =~= "invalid session id"@);
    assert(ascii_lowercase("session deleted"@) =~= "session deleted"@);
    assert(ascii_lowercase("no such window"@) =~= "no such window"@);
    assert(ascii_lowercase("target window already closed"@) =~= "target window already closed"@);
    assert(ascii_lowercase("web view not found"@) =~= "web view not found"@);
    assert(ascii_lowercase("disconnected"@) =~= "disconnected"@);
    lemma_phrase_found(p, "invalid session id"@, q);
    lemma_phrase_found(p, "session deleted"@, q);
    lemma_phrase_found(p, "no such window"@, q);
    lemma_phrase_found(p, "target window already closed"@, q);
    lemma_phrase_found(p, "web view not found"@, q);
    lemma_phrase_found(p, "disconnected"@, q);
}

} // verus!
