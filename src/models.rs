use std::collections::HashMap;
use vstd::prelude::*;
use crate::wire::str_equal;
use vstd::string::*;

verus! {

/// The error envelope the service sends with a failed request.
#[derive(Default, Debug, Clone, PartialEq)]
pub struct ApiException {
    /// A string representing the class of exception.
    pub exception: String,
    /// A human readable error message in English.
    pub doc: String,
    /// A URL linking to hopefully the relevant documentation.
    pub display: String,
}

/// The object returned by the version endpoint.
#[derive(Default, Debug, Clone, PartialEq)]
pub struct Version {
    /// The major version of the API.
    pub api_version: u8,
    /// The version of the software providing the API.
    pub software_version: String,
}

/// A company, as listed by the statistics and search endpoints.
#[derive(Default, Debug, Clone, PartialEq)]
pub struct Company {
    /// The name of the company, in the form provided by the advertiser.
    pub display_name: Option<String>,
    /// A normalised string of the company name, accepted by the search endpoint's company filter.
    pub canonical_name: Option<String>,
    /// The total number of job advertisements posted by this company.
    pub count: Option<usize>,
    /// The average salary in job advertisements posted by this company.
    pub average_salary: Option<usize>,
}

/// The object returned by the top companies endpoint.
#[derive(Default, Debug, Clone, PartialEq)]
pub struct TopCompanies {
    /// Companies ordered by the number of advertisements they have in the database.
    pub leaderboard: Option<Vec<Company>>,
}

/// A job category.
#[derive(Default, Debug, Clone, PartialEq)]
pub struct Category {
    /// The string to pass to the search endpoint's category filter.
    pub tag: String,
    /// A text describing the category, suitable for display.
    pub label: String,
}

/// The object returned by the categories endpoint.
#[derive(Default, Debug, Clone, PartialEq)]
pub struct Categories {
    /// All the categories discovered.
    pub results: Vec<Category>,
}

/// The object returned by the histogram endpoint.
#[derive(Default, Debug, Clone, PartialEq)]
pub struct SalaryHistogram {
    /// The number of live vacancies per salary bucket, keyed by the lowest salary of the bucket.
    pub histogram: Option<HashMap<String, usize>>,
}

/// A location, as a list of names that refine one another.
#[derive(Default, Debug, Clone, PartialEq)]
pub struct LocationDetail {
    /// The location from the country down, one level of detail per entry.
    /// It may be passed to the statistical and search endpoints as location filters.
    pub area: Option<Vec<String>>,
    /// A human readable name for the location.
    pub display_name: Option<String>,
}

/// The number of jobs at one location.
#[derive(Default, Debug, Clone, PartialEq)]
pub struct LocationJobs {
    /// The number of jobs available at this location.
    pub count: Option<usize>,
    /// More detail about the location.
    pub location: Option<LocationDetail>,
}

/// The object returned by the geodata endpoint.
#[derive(Default, Debug, Clone, PartialEq)]
pub struct JobGeoData {
    /// The locations inside the area asked about.
    pub locations: Option<Vec<LocationJobs>>,
}

/// Decodes a flag that the service sends as the text `"1"` or `"0"`: only `"1"` is true.
pub fn decode_flag(s: &str) -> (r: bool)
    ensures
        r == (s@ == "1"@),
{
    str_equal(s, "1")
}

/// Whether a job is permanent or a short-term contract.
#[derive(Clone, Copy, Debug, PartialEq, Eq, Structural)]
pub enum ContractType {
    Permanent,
    Contract,
}

impl ContractType {
    /// The contract type a text names; any other text names none.
    pub open spec fn from_wire(t: Seq<char>) -> Option<ContractType> {
        if t == "permanent"@ {
            Some(ContractType::Permanent)
        } else if t == "contract"@ {
            Some(ContractType::Contract)
        } else {
            None
        }
    }

    /// Decodes the optional `contract_type` field of a job.
    pub fn decode(s: Option<&str>) -> (r: Option<ContractType>)
        ensures
            r == match s {
                Some(t) => ContractType::from_wire(t@),
                None => None,
            },
    {
        match s {
            Some(t) => {
                if str_equal(t, "permanent") {
                    Some(ContractType::Permanent)
                } else if str_equal(t, "contract") {
                    Some(ContractType::Contract)
                } else {
                    None
                }
            },
            None => None,
        }
    }
}

/// Whether a job is full time or part time.
#[derive(Clone, Copy, Debug, PartialEq, Eq, Structural)]
pub enum ContractTime {
    FullTime,
    PartTime,
}

impl ContractTime {
    /// The working time a text names; any other text names none.
    pub open spec fn from_wire(t: Seq<char>) -> Option<ContractTime> {
        if t == "full_time"@ {
            Some(ContractTime::FullTime)
        } else if t == "part_time"@ {
            Some(ContractTime::PartTime)
        } else {
            None
        }
    }

    /// Decodes the optional `contract_time` field of a job.
    pub fn decode(s: Option<&str>) -> (r: Option<ContractTime>)
        ensures
            r == match s {
                Some(t) => ContractTime::from_wire(t@),
                None => None,
            },
    {
        match s {
            Some(t) => {
                if str_equal(t, "full_time") {
                    Some(ContractTime::FullTime)
                } else if str_equal(t, "part_time") {
                    Some(ContractTime::PartTime)
                } else {
                    None
                }
            },
            None => None,
        }
    }
}

/// The direction in which search results are ordered.
#[derive(Clone, Copy, Debug, PartialEq, Eq, Structural)]
pub enum SortDirection {
    Up,
    Down,
}

impl SortDirection {
    /// The direction as the query writes it.
    pub open spec fn wire_name(self) -> Seq<char> {
        match self {
            SortDirection::Up => "up"@,
            SortDirection::Down => "down"@,
        }
    }

    /// The direction as the query writes it.
    pub fn to_string(&self) -> (r: String)
        ensures
            r@ == self.wire_name(),
    {
        match self {
            SortDirection::Up => String::from_str("up"),
            SortDirection::Down => String::from_str("down"),
        }
    }
}

/// The order of search results.
#[derive(Clone, Copy, Debug, PartialEq, Eq, Structural)]
pub enum SortBy {
    Default,
    Hybrid,
    Date,
    Salary,
    Relevance,
}

impl SortBy {
    /// The order as the query writes it.
    pub open spec fn wire_name(self) -> Seq<char> {
        match self {
            SortBy::Default => "default"@,
            SortBy::Hybrid => "hybrid"@,
            SortBy::Date => "date"@,
            SortBy::Salary => "salary"@,
            SortBy::Relevance => "relevance"@,
        }
    }

    /// The order as the query writes it.
    pub fn to_string(&self) -> (r: String)
        ensures
            r@ == self.wire_name(),
    {
        match self {
            SortBy::Default => String::from_str("default"),
            SortBy::Hybrid => String::from_str("hybrid"),
            SortBy::Date => String::from_str("date"),
            SortBy::Salary => String::from_str("salary"),
            SortBy::Relevance => String::from_str("relevance"),
        }
    }
}

/// Countries served by the job search service.
#[derive(Clone, Copy, Debug, PartialEq, Eq, Structural)]
pub enum Country {
    UnitedKingdom,
    UnitedStates,
    Austria,
    Australia,
    Belgium,
    Brazil,
    Canada,
    Switzerland,
    Germany,
    Spain,
    France,
    India,
    Italy,
    Mexico,
    Netherlands,
    NewZealand,
    Poland,
    Russia,
    Singapore,
    SouthAfrica,
}

impl Country {
    /// The two-letter code that names the country in a request path.
    pub open spec fn code(self) -> Seq<char> {
        match self {
            Country::UnitedKingdom => seq!['g', 'b'],
            Country::UnitedStates => seq!['u', 's'],
            Country::Austria => seq!['a', 't'],
            Country::Australia => seq!['a', 'u'],
            Country::Belgium => seq!['b', 'e'],
            Country::Brazil => seq!['b', 'r'],
            Country::Canada => seq!['c', 'a'],
            Country::Switzerland => seq!['c', 'h'],
            Country::Germany => seq!['d', 'e'],
            Country::Spain => seq!['e', 's'],
            Country::France => seq!['f', 'r'],
            Country::India => seq!['i', 'n'],
            Country::Italy => seq!['i', 't'],
            Country::Mexico => seq!['m', 'x'],
            Country::Netherlands => seq!['n', 'l'],
            Country::NewZealand => seq!['n', 'z'],
            Country::Poland => seq!['p', 'l'],
            Country::Russia => seq!['r', 'u'],
            Country::Singapore => seq!['s', 'g'],
            Country::SouthAfrica => seq!['z', 'a'],
        }
    }

    /// The country's path code. New Zealand is `nz`, its ISO 3166 code.
    pub fn to_code(&self) -> (r: &'static str)
        ensures
            r@ == self.code(),
    {
        let r = match self {
            Country::UnitedKingdom => {
                proof { reveal_strlit("gb"); }
                "gb"
            },
            Country::UnitedStates => {
                proof { reveal_strlit("us"); }
                "us"
            },
            Country::Austria => {
                proof { reveal_strlit("at"); }
                "at"
            },
            Country::Australia => {
                proof { reveal_strlit("au"); }
                "au"
            },
            Country::Belgium => {
                proof { reveal_strlit("be"); }
                "be"
            },
            Country::Brazil => {
                proof { reveal_strlit("br"); }
                "br"
            },
            Country::Canada => {
                proof { reveal_strlit("ca"); }
                "ca"
            },
            Country::Switzerland => {
                proof { reveal_strlit("ch"); }
                "ch"
            },
            Country::Germany => {
                proof { reveal_strlit("de"); }
                "de"
            },
            Country::Spain => {
                proof { reveal_strlit("es"); }
                "es"
            },
            Country::France => {
                proof { reveal_strlit("fr"); }
                "fr"
            },
            Country::India => {
                proof { reveal_strlit("in"); }
                "in"
            },
            Country::Italy => {
                proof { reveal_strlit("it"); }
                "it"
            },
            Country::Mexico => {
                proof { reveal_strlit("mx"); }
                "mx"
            },
            Country::Netherlands => {
                proof { reveal_strlit("nl"); }
                "nl"
            },
            Country::NewZealand => {
                proof { reveal_strlit("nz"); }
                "nz"
            },
            Country::Poland => {
                proof { reveal_strlit("pl"); }
                "pl"
            },
            Country::Russia => {
                proof { reveal_strlit("ru"); }
                "ru"
            },
            Country::Singapore => {
                proof { reveal_strlit("sg"); }
                "sg"
            },
            Country::SouthAfrica => {
                proof { reveal_strlit("za"); }
                "za"
            },
        };
        assert(r@ =~= self.code());
        r
    }
}

} // verus!
