//! The page elements the browser flows look for, as CSS or XPath locators.
use vstd::prelude::*;

use crate::services::browser::{xpath_literal, xpath_literal_of};
use crate::text::owned;

verus! {

/// A way to find page elements.
#[derive(Debug, Clone, PartialEq, Eq)]
pub enum Locator {
    Css(String),
    XPath(String),
}

/// The view of a locator.
pub enum LocatorView {
    Css(Seq<char>),
    XPath(Seq<char>),
}

impl View for Locator {
    type V = LocatorView;

    open spec fn view(&self) -> LocatorView {
        match self {
            Locator::Css(s) => LocatorView::Css(s@),
            Locator::XPath(s) => LocatorView::XPath(s@),
        }
    }
}

/// The views of a sequence of locators.
pub open spec fn locators_view(v: Seq<Locator>) -> Seq<LocatorView> {
    v.map_values(|l: Locator| l@)
}

/// The groups of elements that the flows look for.
#[derive(Debug, Clone, Copy, PartialEq, Eq, Structural)]
pub enum LocatorSet {
    /// Search result cards.
    ResultCards,
    /// The title link inside a result card.
    CardTitle,
    /// The employer name inside a result card.
    CardEmployer,
    /// CAPTCHA iframes.
    CaptchaFrames,
    /// CAPTCHA input fields.
    CaptchaInputs,
    /// Visible "not a robot" texts.
    RobotIndicators,
    /// The empty search result message.
    SearchEmptyState,
    /// The vacancy's respond/apply controls.
    ApplyButtons,
    /// Elements present once a vacancy page can be applied to.
    VacancyPageReady,
    /// Elements present once a vacancy page shows its description.
    DescriptionReady,
    /// The vacancy description.
    DescriptionText,
    /// Elements of the response form or popup.
    ApplyForm,
    /// The cover letter text area.
    CoverLetterInput,
}

/// The locators of each group, tried in order.
pub open spec fn locator_set_view(set: LocatorSet) -> Seq<LocatorView> {
    match set {
        LocatorSet::ResultCards => seq![
            LocatorView::Css("[data-qa='vacancy-serp__vacancy']"@),
            LocatorView::Css("[data-qa='serp-item']"@),
            LocatorView::Css(".vacancy-serp-item"@),
        ],
        LocatorSet::CardTitle => seq![
            LocatorView::Css("[data-qa='serp-item__title']"@),
            LocatorView::Css("a[data-qa='vacancy-serp__vacancy-title']"@),
            LocatorView::Css("a[href*='/vacancy/']"@),
        ],
        LocatorSet::CardEmployer => seq![
            LocatorView::Css("[data-qa='vacancy-serp__vacancy-employer']"@),
            LocatorView::Css("[data-qa='vacancy-serp__vacancy-employer-text']"@),
            LocatorView::Css("[data-qa='serp-item__meta-info-company']"@),
            LocatorView::Css(".vacancy-serp-item__meta-info-company"@),
        ],
        LocatorSet::CaptchaFrames => seq![
            LocatorView::Css("iframe[src*='captcha']"@),
            LocatorView::Css("iframe[name*='captcha']"@),
            LocatorView::Css("iframe[id*='captcha']"@),
            LocatorView::Css("iframe[title*='captcha']"@),
        ],
        LocatorSet::CaptchaInputs => seq![
            LocatorView::Css("input[name*='captcha']"@),
            LocatorView::Css("input[id*='captcha']"@),
            LocatorView::Css("input[class*='captcha']"@),
            LocatorView::Css("input[autocomplete='one-time-code']"@),
        ],
        LocatorSet::RobotIndicators => seq![
            LocatorView::XPath("//*[contains(translate(normalize-space(.), 'ABCDEFGHIJKLMNOPQRSTUVWXYZ', 'abcdefghijklmnopqrstuvwxyz'), 'i am not a robot')]"@),
            LocatorView::XPath("//*[contains(translate(normalize-space(.), 'ABCDEFGHIJKLMNOPQRSTUVWXYZ', 'abcdefghijklmnopqrstuvwxyz'), 'not a robot')]"@),
        ],
        LocatorSet::SearchEmptyState => seq![
            LocatorView::XPath("//*[contains(translate(normalize-space(.), 'ABCDEFGHIJKLMNOPQRSTUVWXYZ', 'abcdefghijklmnopqrstuvwxyz'), 'ничего не найдено')]"@),
            LocatorView::XPath("//*[contains(translate(normalize-space(.), 'ABCDEFGHIJKLMNOPQRSTUVWXYZ', 'abcdefghijklmnopqrstuvwxyz'), 'no results')]"@),
        ],
        LocatorSet::ApplyButtons => seq![
            LocatorView::Css("[data-qa='vacancy-response-link-top']"@),
            LocatorView::Css("[data-qa='vacancy-response-link-bottom']"@),
            LocatorView::Css("[data-qa='vacancy-response-link']"@),
            LocatorView::Css("a[href*='vacancy_response']"@),
            LocatorView::XPath("//button[contains(translate(normalize-space(.), 'ABCDEFGHIJKLMNOPQRSTUVWXYZ', 'abcdefghijklmnopqrstuvwxyz'), 'apply')]"@),
            LocatorView::XPath("//a[contains(translate(normalize-space(.), 'ABCDEFGHIJKLMNOPQRSTUVWXYZ', 'abcdefghijklmnopqrstuvwxyz'), 'apply')]"@),
            LocatorView::XPath("//button[contains(translate(normalize-space(.), 'ABCDEFGHIJKLMNOPQRSTUVWXYZ', 'abcdefghijklmnopqrstuvwxyz'), 'respond')]"@),
            LocatorView::XPath("//a[contains(translate(normalize-space(.), 'ABCDEFGHIJKLMNOPQRSTUVWXYZ', 'abcdefghijklmnopqrstuvwxyz'), 'respond')]"@),
        ],
        LocatorSet::VacancyPageReady => seq![
            LocatorView::Css("[data-qa='vacancy-response-link-top']"@),
            LocatorView::Css("[data-qa='vacancy-response-link-bottom']"@),
            LocatorView::Css("[data-qa='vacancy-response-link']"@),
            LocatorView::Css("a[href*='vacancy_response']"@),
        ],
        LocatorSet::DescriptionReady => seq![
            LocatorView::Css("[data-qa='vacancy-description']"@),
            LocatorView::Css("[data-qa='vacancy-description-text']"@),
            LocatorView::Css(".vacancy-description"@),
            LocatorView::Css("[data-qa='vacancy-title']"@),
        ],
        LocatorSet::DescriptionText => seq![
            LocatorView::Css("[data-qa='vacancy-description']"@),
            LocatorView::Css("[data-qa='vacancy-description-text']"@),
            LocatorView::Css(".vacancy-description"@),
        ],
        LocatorSet::ApplyForm => seq![
            LocatorView::Css("[data-qa='vacancy-response-popup']"@),
            LocatorView::Css("[data-qa='vacancy-response-form']"@),
            LocatorView::Css("[data-qa='vacancy-response-popup-form-letter-input']"@),
            LocatorView::Css("[data-qa='vacancy-response-submit-popup']"@),
            LocatorView::Css("[data-qa='vacancy-response-submit']"@),
            LocatorView::Css("textarea"@),
        ],
        LocatorSet::CoverLetterInput => seq![
            LocatorView::Css("[data-qa='vacancy-response-popup-form-letter-input']"@),
            LocatorView::Css("[data-qa='vacancy-response-letter-input']"@),
            LocatorView::Css("textarea[name='letter']"@),
            LocatorView::Css("textarea"@),
        ],
    }
}

fn css(s: &str) -> (r: Locator)
    ensures
        r@ == LocatorView::Css(s@),
{
    Locator::Css(owned(s))
}

fn xpath(s: &str) -> (r: Locator)
    ensures
        r@ == LocatorView::XPath(s@),
{
    Locator::XPath(owned(s))
}

/// The locators of a group, in the order they are tried.
pub fn locators(set: LocatorSet) -> (r: Vec<Locator>)
    ensures
        locators_view(r@) == locator_set_view(set),
{
    let mut v: Vec<Locator> = Vec::new();
    match set {
        LocatorSet::ResultCards => {
            v.push(css("[data-qa='vacancy-serp__vacancy']"));
            v.push(css("[data-qa='serp-item']"));
            v.push(css(".vacancy-serp-item"));
        },
        LocatorSet::CardTitle => {
            v.push(css("[data-qa='serp-item__title']"));
            v.push(css("a[data-qa='vacancy-serp__vacancy-title']"));
            v.push(css("a[href*='/vacancy/']"));
        },
        LocatorSet::CardEmployer => {
            v.push(css("[data-qa='vacancy-serp__vacancy-employer']"));
            v.push(css("[data-qa='vacancy-serp__vacancy-employer-text']"));
            v.push(css("[data-qa='serp-item__meta-info-company']"));
            v.push(css(".vacancy-serp-item__meta-info-company"));
        },
        LocatorSet::CaptchaFrames => {
            v.push(css("iframe[src*='captcha']"));
            v.push(css("iframe[name*='captcha']"));
            v.push(css("iframe[id*='captcha']"));
            v.push(css("iframe[title*='captcha']"));
        },
        LocatorSet::CaptchaInputs => {
            v.push(css("input[name*='captcha']"));
            v.push(css("input[id*='captcha']"));
            v.push(css("input[class*='captcha']"));
            v.push(css("input[autocomplete='one-time-code']"));
        },
        LocatorSet::RobotIndicators => {
            v.push(xpath("//*[contains(translate(normalize-space(.), 'ABCDEFGHIJKLMNOPQRSTUVWXYZ', 'abcdefghijklmnopqrstuvwxyz'), 'i am not a robot')]"));
            v.push(xpath("//*[contains(translate(normalize-space(.), 'ABCDEFGHIJKLMNOPQRSTUVWXYZ', 'abcdefghijklmnopqrstuvwxyz'), 'not a robot')]"));
        },
        LocatorSet::SearchEmptyState => {
            v.push(xpath("//*[contains(translate(normalize-space(.), 'ABCDEFGHIJKLMNOPQRSTUVWXYZ', 'abcdefghijklmnopqrstuvwxyz'), 'ничего не найдено')]"));
            v.push(xpath("//*[contains(translate(normalize-space(.), 'ABCDEFGHIJKLMNOPQRSTUVWXYZ', 'abcdefghijklmnopqrstuvwxyz'), 'no results')]"));
        },
        LocatorSet::ApplyButtons => {
            v.push(css("[data-qa='vacancy-response-link-top']"));
            v.push(css("[data-qa='vacancy-response-link-bottom']"));
            v.push(css("[data-qa='vacancy-response-link']"));
            v.push(css("a[href*='vacancy_response']"));
            v.push(xpath("//button[contains(translate(normalize-space(.), 'ABCDEFGHIJKLMNOPQRSTUVWXYZ', 'abcdefghijklmnopqrstuvwxyz'), 'apply')]"));
            v.push(xpath("//a[contains(translate(normalize-space(.), 'ABCDEFGHIJKLMNOPQRSTUVWXYZ', 'abcdefghijklmnopqrstuvwxyz'), 'apply')]"));
            v.push(xpath("//button[contains(translate(normalize-space(.), 'ABCDEFGHIJKLMNOPQRSTUVWXYZ', 'abcdefghijklmnopqrstuvwxyz'), 'respond')]"));
            v.push(xpath("//a[contains(translate(normalize-space(.), 'ABCDEFGHIJKLMNOPQRSTUVWXYZ', 'abcdefghijklmnopqrstuvwxyz'), 'respond')]"));
        },
        LocatorSet::VacancyPageReady => {
            v.push(css("[data-qa='vacancy-response-link-top']"));
            v.push(css("[data-qa='vacancy-response-link-bottom']"));
            v.push(css("[data-qa='vacancy-response-link']"));
            v.push(css("a[href*='vacancy_response']"));
        },
        LocatorSet::DescriptionReady => {
            v.push(css("[data-qa='vacancy-description']"));
            v.push(css("[data-qa='vacancy-description-text']"));
            v.push(css(".vacancy-description"));
            v.push(css("[data-qa='vacancy-title']"));
        },
        LocatorSet::DescriptionText => {
            v.push(css("[data-qa='vacancy-description']"));
            v.push(css("[data-qa='vacancy-description-text']"));
            v.push(css(".vacancy-description"));
        },
        LocatorSet::ApplyForm => {
            v.push(css("[data-qa='vacancy-response-popup']"));
            v.push(css("[data-qa='vacancy-response-form']"));
            v.push(css("[data-qa='vacancy-response-popup-form-letter-input']"));
            v.push(css("[data-qa='vacancy-response-submit-popup']"));
            v.push(css("[data-qa='vacancy-response-submit']"));
            v.push(css("textarea"));
        },
        LocatorSet::CoverLetterInput => {
            v.push(css("[data-qa='vacancy-response-popup-form-letter-input']"));
            v.push(css("[data-qa='vacancy-response-letter-input']"));
            v.push(css("textarea[name='letter']"));
            v.push(css("textarea"));
        },
    }
    assert(locators_view(v@) =~= locator_set_view(set));
    v
}

/// The controls that select the resume `resume_id`: inputs and elements whose
/// value or resume id is it, and elements whose link or `data-qa` mentions it.
pub open spec fn resume_locator_view(resume_id: Seq<char>) -> Seq<LocatorView> {
    let lit = xpath_literal_of(resume_id);
    seq![
        LocatorView::Css("input[value='"@ + resume_id + "']"@),
        LocatorView::Css("input[data-resume-id='"@ + resume_id + "']"@),
        LocatorView::Css("[data-resume-id='"@ + resume_id + "']"@),
        LocatorView::XPath("//*[@value="@ + lit + "]"@),
        LocatorView::XPath("//*[contains(@href, "@ + lit + ")]"@),
        LocatorView::XPath("//*[contains(@data-qa, "@ + lit + ")]"@),
    ]
}

fn around(prefix: &str, middle: &str, suffix: &str) -> (r: String)
    ensures
        r@ == prefix@ + middle@ + suffix@,
{
    let mut s = owned(prefix);
    s.append(middle);
    s.append(suffix);
    s
}

/// The locators of the controls that select the resume `resume_id`.
pub fn resume_locators(resume_id: &str) -> (r: Vec<Locator>)
    ensures
        locators_view(r@) == resume_locator_view(resume_id@),
{
    let lit = xpath_literal(resume_id);
    let mut v: Vec<Locator> = Vec::new();
    v.push(Locator::Css(around("input[value='", resume_id, "']")));
    v.push(Locator::Css(around("input[data-resume-id='", resume_id, "']")));
    v.push(Locator::Css(around("[data-resume-id='", resume_id, "']")));
    v.push(Locator::XPath(around("//*[@value=", lit.as_str(), "]")));
    v.push(Locator::XPath(around("//*[contains(@href, ", lit.as_str(), ")]")));
    v.push(Locator::XPath(around("//*[contains(@data-qa, ", lit.as_str(), ")]")));
    assert(locators_view(v@) =~= resume_locator_view(resume_id@));
    v
}

} // verus!
