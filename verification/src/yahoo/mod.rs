//! What the two services are asked and what their replies hold.

pub mod address;
pub mod chart;
pub mod reply;
pub mod web_scraper;

pub use chart::{load_daily, load_daily_range, Chart, ChartRecord, ChartResponse, Indicators, OHLCV};
pub use web_scraper::{scrape, CompanyProfile, FundProfile, QuoteSummaryStore, QuoteType, Stores};
