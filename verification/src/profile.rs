//! The profile of a symbol: a company or a fund.

use crate::error::YahooError;
use crate::yahoo::web_scraper::{CompanyProfile, FundProfile, QuoteSummaryStore};
use vstd::prelude::*;

verus! {

/// The address on file for a company, usually its headquarters.
#[derive(Debug, Clone, PartialEq)]
pub struct Address {
    pub street1: Option<String>,
    pub street2: Option<String>,
    pub city: Option<String>,
    pub state: Option<String>,
    pub country: Option<String>,
    pub zip: Option<String>,
}

impl Address {
    /// The address that a company's profile holds.
    pub open spec fn of(data: CompanyProfile) -> Address {
        Address {
            street1: data.address1,
            street2: data.address2,
            city: data.city,
            state: data.state,
            country: data.country,
            zip: data.zip,
        }
    }

    pub fn new(data: &CompanyProfile) -> (r: Result<Address, YahooError>)
        ensures
            r == Ok::<Address, YahooError>(Address::of(*data)),
    {
        Ok(
            Address {
                street1: data.address1.clone(),
                street2: data.address2.clone(),
                city: data.city.clone(),
                state: data.state.clone(),
                country: data.country.clone(),
                zip: data.zip.clone(),
            },
        )
    }
}

#[derive(Debug, Clone, PartialEq)]
pub struct Company {
    /// The address on file, usually the headquarters.
    pub address: Option<Address>,
    pub industry: Option<String>,
    /// The common name of the company.
    pub name: String,
    pub sector: Option<String>,
    /// A description of what the company does.
    pub summary: Option<String>,
    pub website: Option<String>,
}

impl Company {
    /// The company of the given name that a profile describes.
    pub open spec fn of(name: String, profile: CompanyProfile) -> Company {
        Company {
            name,
            summary: profile.summary,
            address: Some(Address::of(profile)),
            industry: profile.industry,
            sector: profile.sector,
            website: profile.website,
        }
    }

    /// The company that a store describes. A store without a company's
    /// profile describes none.
    pub fn new(data: QuoteSummaryStore) -> (r: Result<Company, YahooError>)
        ensures
            match data.company_profile {
                Some(profile) => r == Ok::<Company, YahooError>(
                    Company::of(data.quote_type.name, profile),
                ),
                None => r matches Err(e) && e.is_missing_data("No summary profile"@),
            },
    {
        let profile = match data.company_profile {
            Some(profile) => profile,
            None => {
                return Err(YahooError::MissingData { reason: "No summary profile".to_owned() });
            },
        };
        let address = Some(Address::new(&profile)?);
        Ok(
            Company {
                name: data.quote_type.name,
                summary: profile.summary,
                address,
                industry: profile.industry,
                sector: profile.sector,
                website: profile.website,
            },
        )
    }
}

#[derive(Debug, Clone, PartialEq)]
pub struct Fund {
    pub name: String,
    pub family: Option<String>,
    /// The legal type of the fund.
    pub kind: String,
}

impl Fund {
    /// The fund of the given name that a profile describes.
    pub open spec fn of(name: String, profile: FundProfile) -> Fund {
        Fund { name, kind: profile.kind, family: profile.family }
    }

    /// The fund that a store describes. A store without a fund's profile
    /// describes none.
    pub fn new(data: QuoteSummaryStore) -> (r: Result<Fund, YahooError>)
        ensures
            match data.fund_profile {
                Some(profile) => r == Ok::<Fund, YahooError>(
                    Fund::of(data.quote_type.name, profile),
                ),
                None => r matches Err(e) && e.is_missing_data("No fund profile"@),
            },
    {
        let profile = match data.fund_profile {
            Some(profile) => profile,
            None => {
                return Err(YahooError::MissingData { reason: "No fund profile".to_owned() });
            },
        };
        Ok(Fund { name: data.quote_type.name, kind: profile.kind, family: profile.family })
    }
}

#[derive(Debug, Clone, PartialEq)]
pub enum Profile {
    Company(Company),
    Fund(Fund),
}

impl Profile {
    /// What loading a store gives: by the kind of the security, a company
    /// for `EQUITY` and a fund for `ETF`, each from its own profile in the
    /// store; no other kind has a profile.
    pub open spec fn loaded(data: QuoteSummaryStore, r: Result<Profile, YahooError>) -> bool {
        let kind = data.quote_type.kind@;
        let name = data.quote_type.name;
        if kind == "EQUITY"@ {
            match data.company_profile {
                Some(profile) => r == Ok::<Profile, YahooError>(
                    Profile::Company(Company::of(name, profile)),
                ),
                None => r matches Err(e) && e.is_missing_data("No summary profile"@),
            }
        } else if kind == "ETF"@ {
            match data.fund_profile {
                Some(profile) => r == Ok::<Profile, YahooError>(
                    Profile::Fund(Fund::of(name, profile)),
                ),
                None => r matches Err(e) && e.is_missing_data("No fund profile"@),
            }
        } else {
            r matches Err(e) && e.is_unsupported_security(kind)
        }
    }

    /// The profile that a store describes.
    pub fn load(data: QuoteSummaryStore) -> (r: Result<Profile, YahooError>)
        ensures
            Profile::loaded(data, r),
    {
        let equity = "EQUITY".to_owned();
        let etf = "ETF".to_owned();
        if data.quote_type.kind == equity {
            Ok(Profile::Company(Company::new(data)?))
        } else if data.quote_type.kind == etf {
            Ok(Profile::Fund(Fund::new(data)?))
        } else {
            Err(YahooError::UnsupportedSecurity { kind: data.quote_type.kind })
        }
    }
}

} // verus!
