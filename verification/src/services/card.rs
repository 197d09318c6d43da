//! The result-card machine: reads a listing's parts from one search result
//! card.
use vstd::prelude::*;

use crate::errors::AppError;
use crate::models::JobListing;
use crate::services::actions::{BrowserAction, BrowserEvent, ScanGoal, ScanOutcome};
use crate::services::browser::{employer_name, listing_from_parts, listing_url};
use crate::services::selectors::LocatorSet;
use crate::text::collapse_whitespace;

verus! {

/// Where the reading of a card stands.
#[derive(Debug, Clone, Copy, PartialEq, Eq, Structural)]
pub enum CardStage {
    FindTitle,
    ReadTitle,
    ReadHref,
    FindEmployer,
    ReadEmployer,
    Finished,
}

/// What has been read from a card: its title link's text and `href`, and the
/// text of its employer element.
#[derive(Debug, Clone, PartialEq, Eq)]
pub struct CardExtraction {
    pub stage: CardStage,
    /// The card has no title link.
    pub no_title: bool,
    pub title_text: Option<String>,
    pub href: Option<String>,
    pub employer_text: Option<String>,
    pub error: Option<AppError>,
}

/// The action of a card stage.
pub open spec fn card_action(stage: CardStage) -> BrowserAction {
    match stage {
        CardStage::FindTitle => BrowserAction::ProbeCard(ScanGoal::FirstPresent, LocatorSet::CardTitle),
        CardStage::ReadTitle => BrowserAction::ReadText,
        CardStage::ReadHref => BrowserAction::ReadHref,
        CardStage::FindEmployer => BrowserAction::ProbeCard(
            ScanGoal::FirstPresent,
            LocatorSet::CardEmployer,
        ),
        CardStage::ReadEmployer => BrowserAction::ReadText,
        CardStage::Finished => BrowserAction::Finish,
    }
}

/// Moving to `stage`.
pub open spec fn card_at(c: CardExtraction, stage: CardStage) -> (CardExtraction, BrowserAction) {
    (CardExtraction { stage, ..c }, card_action(stage))
}

/// Finishing the card.
pub open spec fn card_done(c: CardExtraction) -> (CardExtraction, BrowserAction) {
    (CardExtraction { stage: CardStage::Finished, ..c }, BrowserAction::Finish)
}

/// Finishing the card with failure `err`.
pub open spec fn card_failed(c: CardExtraction, err: AppError) -> (CardExtraction, BrowserAction) {
    (CardExtraction { stage: CardStage::Finished, error: Some(err), ..c }, BrowserAction::Finish)
}

/// The next state and action of a card after event `e`: the title link is
/// looked up (a card without one is done), its text and `href` read, then the
/// employer element looked up and, when there is one, its text read; a failed
/// lookup or read ends the card with that failure.
pub open spec fn card_next(c: CardExtraction, e: BrowserEvent) -> (CardExtraction, BrowserAction) {
    match c.stage {
        CardStage::FindTitle => match e {
            BrowserEvent::Scan(ScanOutcome::Element { .. }) => card_at(c, CardStage::ReadTitle),
            BrowserEvent::Scan(ScanOutcome::NotFound) => card_done(
                CardExtraction { no_title: true, ..c },
            ),
            BrowserEvent::Scan(ScanOutcome::Error(err)) => card_failed(c, err),
            _ => card_at(c, c.stage),
        },
        CardStage::ReadTitle => match e {
            BrowserEvent::Text(t) => card_at(
                CardExtraction { title_text: Some(t), ..c },
                CardStage::ReadHref,
            ),
            BrowserEvent::Failed(err) => card_failed(c, err),
            _ => card_at(c, c.stage),
        },
        CardStage::ReadHref => match e {
            BrowserEvent::Attr(h) => card_at(CardExtraction { href: h, ..c }, CardStage::FindEmployer),
            BrowserEvent::Failed(err) => card_failed(c, err),
            _ => card_at(c, c.stage),
        },
        CardStage::FindEmployer => match e {
            BrowserEvent::Scan(ScanOutcome::Element { .. }) => card_at(c, CardStage::ReadEmployer),
            BrowserEvent::Scan(ScanOutcome::NotFound) => card_done(c),
            BrowserEvent::Scan(ScanOutcome::Error(err)) => card_failed(c, err),
            _ => card_at(c, c.stage),
        },
        CardStage::ReadEmployer => match e {
            BrowserEvent::Text(t) => card_done(CardExtraction { employer_text: Some(t), ..c }),
            BrowserEvent::Failed(err) => card_failed(c, err),
            _ => card_at(c, c.stage),
        },
        CardStage::Finished => (c, BrowserAction::Finish),
    }
}

impl CardExtraction {
    fn at(self, stage: CardStage) -> (r: (CardExtraction, BrowserAction))
        ensures
            r == card_at(self, stage),
    {
        let a = match stage {
            CardStage::FindTitle => BrowserAction::ProbeCard(
                ScanGoal::FirstPresent,
                LocatorSet::CardTitle,
            ),
            CardStage::ReadTitle => BrowserAction::ReadText,
            CardStage::ReadHref => BrowserAction::ReadHref,
            CardStage::FindEmployer => BrowserAction::ProbeCard(
                ScanGoal::FirstPresent,
                LocatorSet::CardEmployer,
            ),
            CardStage::ReadEmployer => BrowserAction::ReadText,
            CardStage::Finished => BrowserAction::Finish,
        };
        (CardExtraction { stage, ..self }, a)
    }

    fn failed(self, err: AppError) -> (r: (CardExtraction, BrowserAction))
        ensures
            r == card_failed(self, err),
    {
        (CardExtraction { stage: CardStage::Finished, error: Some(err), ..self }, BrowserAction::Finish)
    }

    /// Reading a new card, and the first action.
    pub fn start() -> (r: (CardExtraction, BrowserAction))
        ensures
            r == card_at(
                CardExtraction {
                    stage: CardStage::FindTitle,
                    no_title: false,
                    title_text: None,
                    href: None,
                    employer_text: None,
                    error: None,
                },
                CardStage::FindTitle,
            ),
    {
        CardExtraction {
            stage: CardStage::FindTitle,
            no_title: false,
            title_text: None,
            href: None,
            employer_text: None,
            error: None,
        }.at(CardStage::FindTitle)
    }

    /// The next state and action after event `e`.
    pub fn step(self, e: BrowserEvent) -> (r: (CardExtraction, BrowserAction))
        ensures
            r == card_next(self, e),
    {
        let stage = self.stage;
        match stage {
            CardStage::FindTitle => match e {
                BrowserEvent::Scan(ScanOutcome::Element { .. }) => self.at(CardStage::ReadTitle),
                BrowserEvent::Scan(ScanOutcome::NotFound) => (
                    CardExtraction { stage: CardStage::Finished, no_title: true, ..self },
                    BrowserAction::Finish,
                ),
                BrowserEvent::Scan(ScanOutcome::Error(err)) => self.failed(err),
                _ => self.at(stage),
            },
            CardStage::ReadTitle => match e {
                BrowserEvent::Text(t) => CardExtraction { title_text: Some(t), ..self }.at(
                    CardStage::ReadHref,
                ),
                BrowserEvent::Failed(err) => self.failed(err),
                _ => self.at(stage),
            },
            CardStage::ReadHref => match e {
                BrowserEvent::Attr(h) => CardExtraction { href: h, ..self }.at(
                    CardStage::FindEmployer,
                ),
                BrowserEvent::Failed(err) => self.failed(err),
                _ => self.at(stage),
            },
            CardStage::FindEmployer => match e {
                BrowserEvent::Scan(ScanOutcome::Element { .. }) => self.at(
                    CardStage::ReadEmployer,
                ),
                BrowserEvent::Scan(ScanOutcome::NotFound) => (
                    CardExtraction { stage: CardStage::Finished, ..self },
                    BrowserAction::Finish,
                ),
                BrowserEvent::Scan(ScanOutcome::Error(err)) => self.failed(err),
                _ => self.at(stage),
            },
            CardStage::ReadEmployer => match e {
                BrowserEvent::Text(t) => (
                    CardExtraction {
                        stage: CardStage::Finished,
                        employer_text: Some(t),
                        ..self
                    },
                    BrowserAction::Finish,
                ),
                BrowserEvent::Failed(err) => self.failed(err),
                _ => self.at(stage),
            },
            CardStage::Finished => (self, BrowserAction::Finish),
        }
    }

    /// The listing the card makes: the failure that ended it, none for a card
    /// without a title link, else the listing built from what was read (none
    /// when its cleaned title or absolute link is empty).
    pub fn into_listing(self) -> (r: Result<Option<JobListing>, AppError>)
        ensures
            self.error is Some ==> r == Err::<Option<JobListing>, AppError>(self.error->0),
            self.error is None && (self.no_title || self.title_text is None) ==> r == Ok::<
                Option<JobListing>,
                AppError,
            >(None),
            self.error is None && !self.no_title && self.title_text is Some ==> {
                let t = self.title_text->0;
                &&& r is Ok
                &&& (r->Ok_0 is None <==> (collapse_whitespace(t@).len() == 0 || listing_url(
                    self.href,
                ).len() == 0))
                &&& r->Ok_0 is Some ==> {
                    &&& r->Ok_0->0.title@ == collapse_whitespace(t@)
                    &&& r->Ok_0->0.url@ == listing_url(self.href)
                    &&& r->Ok_0->0.employer@ == employer_name(self.employer_text)
                    &&& r->Ok_0->0.description@ == Seq::<char>::empty()
                }
            },
    {
        if let Some(err) = self.error {
            return Err(err);
        }
        if self.no_title {
            return Ok(None);
        }
        match self.title_text {
            Some(t) => Ok(listing_from_parts(t, self.href, self.employer_text)),
            None => Ok(None),
        }
    }
}

/// The employer name of a card is the cleaned text of its employer element;
/// only a missing or blank element gives `Unknown`.
pub proof fn law_employer_name(t: String)
    ensures
        collapse_whitespace(t@).len() > 0 ==> employer_name(Some(t)) == collapse_whitespace(t@),
        collapse_whitespace(t@).len() == 0 ==> employer_name(Some(t)) == "Unknown"@,
        employer_name(None) == "Unknown"@,
{
}

/// When the employer lookup finds an element, the card reads its text next,
/// and that text becomes the card's employer text; what was read before is
/// kept. When there is no employer element, the card ends without one.
pub proof fn law_card_reads_employer(c: CardExtraction, loc: usize, elem: usize, t: String)
    requires
        c.stage == CardStage::FindEmployer,
    ensures
        ({
            let (c1, a1) = card_next(c, BrowserEvent::Scan(ScanOutcome::Element { loc, elem }));
            let (c2, a2) = card_next(c1, BrowserEvent::Text(t));
            &&& a1 == BrowserAction::ReadText
            &&& c1.stage == CardStage::ReadEmployer
            &&& a2 == BrowserAction::Finish
            &&& c2.stage == CardStage::Finished
            &&& c2.employer_text == Some(t)
            &&& c2.title_text == c.title_text
            &&& c2.href == c.href
            &&& c2.no_title == c.no_title
            &&& c2.error == c.error
        }),
        ({
            let (c1, a1) = card_next(c, BrowserEvent::Scan(ScanOutcome::NotFound));
            &&& a1 == BrowserAction::Finish
            &&& c1.employer_text == c.employer_text
            &&& c1.error == c.error
        }),
{
}

/// A card whose title link, `href` and employer element are all found is read
/// in full: from a new card, finding the title, reading its text and `href`,
/// finding the employer and reading its text ends the card with exactly those
/// texts and no error.
pub proof fn law_card_run_reads_all_parts(
    title_at: ScanOutcome,
    title: String,
    href: Option<String>,
    employer_at: ScanOutcome,
    employer: String,
)
    requires
        title_at is Element,
        employer_at is Element,
    ensures
        ({
            let c0 = CardExtraction {
                stage: CardStage::FindTitle,
                no_title: false,
                title_text: None,
                href: None,
                employer_text: None,
                error: None,
            };
            let (c1, a1) = card_next(c0, BrowserEvent::Scan(title_at));
            let (c2, a2) = card_next(c1, BrowserEvent::Text(title));
            let (c3, a3) = card_next(c2, BrowserEvent::Attr(href));
            let (c4, a4) = card_next(c3, BrowserEvent::Scan(employer_at));
            let (c5, a5) = card_next(c4, BrowserEvent::Text(employer));
            &&& a1 == BrowserAction::ReadText
            &&& a2 == BrowserAction::ReadHref
            &&& a3 == BrowserAction::ProbeCard(ScanGoal::FirstPresent, LocatorSet::CardEmployer)
            &&& a4 == BrowserAction::ReadText
            &&& a5 == BrowserAction::Finish
            &&& c5.stage == CardStage::Finished
            &&& !c5.no_title
            &&& c5.title_text == Some(title)
            &&& c5.href == href
            &&& c5.employer_text == Some(employer)
            &&& c5.error is None
        }),
{
}

} // verus!
