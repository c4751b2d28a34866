use yahoo_finance::yahoo::web_scraper::{CompanyProfile, FundProfile, QuoteSummaryStore, QuoteType};
use yahoo_finance::{Address, Company, Fund, Profile, YahooError};

fn text(s: &str) -> Option<String> {
    Some(s.to_string())
}

fn apple() -> CompanyProfile {
    CompanyProfile {
        address1: text("One Apple Park Way"),
        address2: None,
        city: text("Cupertino"),
        state: text("CA"),
        country: text("United States"),
        zip: text("95014"),
        employees: Some(147_000),
        sector: text("Technology"),
        industry: text("Consumer Electronics"),
        summary: text("Apple Inc. designs, manufactures, and markets smartphones."),
        website: text("http://www.apple.com"),
    }
}

fn spy() -> FundProfile {
    FundProfile { kind: "Exchange Traded Fund".to_string(), family: text("SPDR State Street") }
}

fn store(
    kind: &str,
    name: &str,
    company: Option<CompanyProfile>,
    fund: Option<FundProfile>,
) -> QuoteSummaryStore {
    QuoteSummaryStore {
        fund_profile: fund,
        company_profile: company,
        quote_type: QuoteType { name: name.to_string(), kind: kind.to_string() },
    }
}

fn missing(r: Result<Profile, YahooError>) -> String {
    match r {
        Err(YahooError::MissingData { reason }) => reason,
        other => panic!("expected MissingData, got {:?}", other),
    }
}

#[test]
fn an_address_is_read_off_the_profile() {
    assert_eq!(
        Address::new(&apple()).unwrap(),
        Address {
            street1: text("One Apple Park Way"),
            street2: None,
            city: text("Cupertino"),
            state: text("CA"),
            country: text("United States"),
            zip: text("95014"),
        }
    );
}

#[test]
fn an_equity_is_a_company() {
    let profile = Profile::load(store("EQUITY", "Apple Inc.", Some(apple()), None)).unwrap();
    match profile {
        Profile::Company(company) => {
            assert_eq!(company.name, "Apple Inc.");
            assert_eq!(company.address.as_ref().unwrap().city, text("Cupertino"));
            assert_eq!(
                company,
                Company {
                    name: "Apple Inc.".to_string(),
                    address: Some(Address::new(&apple()).unwrap()),
                    industry: text("Consumer Electronics"),
                    sector: text("Technology"),
                    summary: text("Apple Inc. designs, manufactures, and markets smartphones."),
                    website: text("http://www.apple.com"),
                }
            );
        }
        other => panic!("expected a company, got {:?}", other),
    }
}

#[test]
fn an_equity_keeps_to_its_own_profile() {
    let profile = Profile::load(store("EQUITY", "Apple Inc.", Some(apple()), Some(spy()))).unwrap();
    assert!(matches!(profile, Profile::Company(_)));
}

#[test]
fn an_etf_is_a_fund() {
    let profile = Profile::load(store("ETF", "SPDR S&P 500 ETF Trust", None, Some(spy()))).unwrap();
    assert_eq!(
        profile,
        Profile::Fund(Fund {
            name: "SPDR S&P 500 ETF Trust".to_string(),
            kind: "Exchange Traded Fund".to_string(),
            family: text("SPDR State Street"),
        })
    );
    let profile = Profile::load(store("ETF", "SPDR", Some(apple()), Some(spy()))).unwrap();
    match profile {
        Profile::Fund(fund) => assert_eq!(fund.kind, "Exchange Traded Fund"),
        other => panic!("expected a fund, got {:?}", other),
    }
}

#[test]
fn any_other_kind_is_not_supported() {
    for kind in ["BOND", "", "equity", "Etf", "EQUITY ", "MUTUALFUND", "CRYPTOCURRENCY"] {
        match Profile::load(store(kind, "Something", Some(apple()), Some(spy()))) {
            Err(YahooError::UnsupportedSecurity { kind: reported }) => assert_eq!(reported, kind),
            other => panic!("expected UnsupportedSecurity, got {:?}", other),
        }
    }
}

#[test]
fn an_equity_without_its_profile_lacks_data() {
    assert_eq!(
        missing(Profile::load(store("EQUITY", "Apple Inc.", None, Some(spy())))),
        "No summary profile"
    );
    match Company::new(store("EQUITY", "Apple Inc.", None, None)) {
        Err(YahooError::MissingData { reason }) => assert_eq!(reason, "No summary profile"),
        other => panic!("expected MissingData, got {:?}", other),
    }
}

#[test]
fn an_etf_without_its_profile_lacks_data() {
    assert_eq!(
        missing(Profile::load(store("ETF", "SPDR", Some(apple()), None))),
        "No fund profile"
    );
    match Fund::new(store("ETF", "SPDR", None, None)) {
        Err(YahooError::MissingData { reason }) => assert_eq!(reason, "No fund profile"),
        other => panic!("expected MissingData, got {:?}", other),
    }
}

#[test]
fn the_builders_do_not_look_at_the_kind() {
    let company = Company::new(store("ETF", "Apple Inc.", Some(apple()), None)).unwrap();
    assert_eq!(company.name, "Apple Inc.");
    assert_eq!(company.sector, text("Technology"));
    let fund = Fund::new(store("EQUITY", "SPDR", None, Some(spy()))).unwrap();
    assert_eq!(fund.name, "SPDR");
    assert_eq!(fund.family, text("SPDR State Street"));
}
