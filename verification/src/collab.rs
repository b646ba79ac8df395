//! The outcomes of the two external collaborators a tool handler consults.
//! The gateway never performs the collaborator's work itself: the hosting
//! side runs the call and hands the outcome in as a value, so the mapping
//! from every possible outcome to a response is verified here.

use vstd::prelude::*;

verus! {

/// What a content scraper call came back with.
pub enum ScrapeOutcome {
    /// The scraper fetched and rewrote the page.
    Success { enhanced_content: String },
    /// The scraper could not reach the source.
    NetworkFailure,
    /// The scraper could not make sense of what it fetched.
    ParseFailure,
}

/// The mathematical shape of a scrape outcome.
#[verifier::ext_equal]
pub enum ScrapeV {
    Success { enhanced_content: Seq<char> },
    NetworkFailure,
    ParseFailure,
}

impl View for ScrapeOutcome {
    type V = ScrapeV;

    open spec fn view(&self) -> ScrapeV {
        match self {
            ScrapeOutcome::Success { enhanced_content } => ScrapeV::Success {
                enhanced_content: enhanced_content@,
            },
            ScrapeOutcome::NetworkFailure => ScrapeV::NetworkFailure,
            ScrapeOutcome::ParseFailure => ScrapeV::ParseFailure,
        }
    }
}

/// One result of a vector search: an identifier, a relevance score in
/// hundredths (so 95 stands for 0.95, at most 100), and metadata pairs.
pub struct SearchHit {
    pub id: String,
    pub score_centi: u8,
    pub metadata: Vec<(String, String)>,
}

/// The mathematical shape of a search hit.
#[verifier::ext_equal]
pub struct HitV {
    pub id: Seq<char>,
    pub score_centi: u8,
    pub metadata: Seq<(Seq<char>, Seq<char>)>,
}

impl View for SearchHit {
    type V = HitV;

    open spec fn view(&self) -> HitV {
        HitV { id: self.id@, score_centi: self.score_centi, metadata: self.metadata.deep_view() }
    }
}

impl DeepView for SearchHit {
    type V = HitV;

    open spec fn deep_view(&self) -> HitV {
        self.view()
    }
}

/// What a vector search call came back with.
pub enum QueryOutcome {
    /// The search ran and returned its hits, best first.
    Results { hits: Vec<SearchHit> },
    /// The search service could not be reached.
    ServiceUnavailable,
    /// The search service rejected the query.
    InvalidQuery,
}

/// The mathematical shape of a query outcome.
#[verifier::ext_equal]
pub enum QueryV {
    Results { hits: Seq<HitV> },
    ServiceUnavailable,
    InvalidQuery,
}

impl View for QueryOutcome {
    type V = QueryV;

    open spec fn view(&self) -> QueryV {
        match self {
            QueryOutcome::Results { hits } => QueryV::Results { hits: hits.deep_view() },
            QueryOutcome::ServiceUnavailable => QueryV::ServiceUnavailable,
            QueryOutcome::InvalidQuery => QueryV::InvalidQuery,
        }
    }
}

/// The fixed content the placeholder scraper stands in with.
pub open spec fn placeholder_scrape_view() -> ScrapeV {
    ScrapeV::Success {
        enhanced_content: "This is the beautifully rewritten content from the scraper."@,
    }
}

/// The placeholder scrape outcome used until a real scraper is wired in.
pub fn placeholder_scrape_outcome() -> (r: ScrapeOutcome)
    ensures
        r@ == placeholder_scrape_view(),
{
    ScrapeOutcome::Success {
        enhanced_content: String::from_str(
            "This is the beautifully rewritten content from the scraper.",
        ),
    }
}

/// The fixed hit the placeholder search stands in with.
pub open spec fn placeholder_hit_view() -> HitV {
    HitV {
        id: "tennyson-trail"@,
        score_centi: 95,
        metadata: seq![
            ("title"@, "Along the Tennyson Trail"@),
            ("summary"@, "A sublime ribbon of nature..."@),
        ],
    }
}

/// The fixed result list the placeholder search stands in with.
pub open spec fn placeholder_query_view() -> QueryV {
    QueryV::Results { hits: seq![placeholder_hit_view()] }
}

/// The placeholder query outcome used until a real search service is wired
/// in.
pub fn placeholder_query_outcome() -> (r: QueryOutcome)
    ensures
        r@ == placeholder_query_view(),
{
    let mut metadata: Vec<(String, String)> = Vec::new();
    metadata.push((String::from_str("title"), String::from_str("Along the Tennyson Trail")));
    metadata.push(
        (String::from_str("summary"), String::from_str("A sublime ribbon of nature...")),
    );
    let hit = SearchHit { id: String::from_str("tennyson-trail"), score_centi: 95, metadata };
    let mut hits: Vec<SearchHit> = Vec::new();
    hits.push(hit);
    let r = QueryOutcome::Results { hits };
    proof {
        assert(r@ =~~= placeholder_query_view());
    }
    r
}

} // verus!
