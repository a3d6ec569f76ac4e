use vstd::prelude::*;
use vstd::string::*;
use crate::client::Client;
use crate::models::{ApiException, Country, SortBy, SortDirection};
use crate::parameters::{
    lemma_key_name_shape, lemma_query_sends_set_filters, opt_seq, Flag, Key, NumberField,
    Parameters, ParametersView, TextField,
};
use crate::wire::{
    decimal, decimal_string, lemma_values_for_absent, lemma_values_for_concat, pairs_view,
    values_for, PairView,
};

verus! {

/// The root under which every route of the service stands.
pub const ROOT_URL: &'static str = "https://api.adzuna.com/v1/api";

/// A failed request.
///
/// `http_status` is the status the server answered with; it is absent when no answer was
/// obtained or when a successful answer could not be decoded. `api_error` is the error
/// envelope of a failed answer, when its body could be decoded.
#[derive(Debug, Clone, PartialEq)]
pub struct AdzunaError {
    pub api_error: Option<ApiException>,
    pub http_status: Option<u16>,
}

impl AdzunaError {
    /// A failure the server reported with `http_status`, and the envelope if there was one.
    pub fn new(api_error: Option<ApiException>, http_status: u16) -> (r: AdzunaError)
        ensures
            r.api_error == api_error,
            r.http_status == Some(http_status),
    {
        AdzunaError { api_error, http_status: Some(http_status) }
    }

    /// A failure the server reported with `http_status` and no envelope.
    pub fn from_status(http_status: u16) -> (r: AdzunaError)
        ensures
            r.api_error.is_none(),
            r.http_status == Some(http_status),
    {
        AdzunaError { api_error: None, http_status: Some(http_status) }
    }

    /// A failure on the client's side, with no status from the server.
    pub fn client_failure() -> (r: AdzunaError)
        ensures
            r.api_error.is_none(),
            r.http_status.is_none(),
    {
        AdzunaError { api_error: None, http_status: None }
    }
}

/// What a fetch does once the server has answered with a status.
#[derive(Clone, Copy, Debug, PartialEq, Eq, Structural)]
pub enum ResponseStep {
    /// Decode the body as the route's response.
    DecodeResponse,
    /// Decode the body as an error envelope, and fail with the status.
    DecodeErrorEnvelope(u16),
}

/// Only status 200 is a success; any other status is a failure that carries it.
pub fn response_step(status: u16) -> (r: ResponseStep)
    ensures
        r == if status == 200 {
            ResponseStep::DecodeResponse
        } else {
            ResponseStep::DecodeErrorEnvelope(status)
        },
{
    if status == 200 {
        ResponseStep::DecodeResponse
    } else {
        ResponseStep::DecodeErrorEnvelope(status)
    }
}

/// The failure of a request that obtained no answer, with the status the transport gave, if any.
pub fn transport_failure(status: Option<u16>) -> (r: AdzunaError)
    ensures
        r.api_error.is_none(),
        r.http_status == status,
{
    match status {
        Some(s) => AdzunaError::from_status(s),
        None => AdzunaError::client_failure(),
    }
}

/// The failure of a request answered with a status other than 200, with the envelope that the
/// body held if it could be decoded.
pub fn error_response(status: u16, envelope: Option<ApiException>) -> (r: AdzunaError)
    ensures
        r.api_error == envelope,
        r.http_status == Some(status),
{
    AdzunaError::new(envelope, status)
}

/// The outcome of a request answered with status 200: the decoded response, or a client-side
/// failure without a status when the body did not decode.
pub fn decoded_response<T>(body: Option<T>) -> (r: Result<T, AdzunaError>)
    ensures
        match body {
            Some(v) => r == Ok::<T, AdzunaError>(v),
            None => r matches Err(e) && e.api_error.is_none() && e.http_status.is_none(),
        },
{
    match body {
        Some(v) => Ok(v),
        None => Err(AdzunaError::client_failure()),
    }
}

/// The routes of the service.
#[derive(Clone, Copy, Debug, PartialEq, Eq, Structural)]
pub enum Endpoint {
    Version,
    Categories,
    Histogram,
    TopCompanies,
    Geodata,
    History,
    Search,
}

/// A request as the contracts see it: its route, the credentials it carries, the country and
/// page of its path, and its filters.
pub struct RequestView {
    pub endpoint: Endpoint,
    pub app_id: Seq<char>,
    pub app_key: Seq<char>,
    pub country: Seq<char>,
    pub page: usize,
    pub params: ParametersView,
}

impl RequestView {
    /// A request on route `e` as a client first makes it: in the United States, on page 1,
    /// with no filter.
    pub open spec fn fresh(e: Endpoint, app_id: Seq<char>, app_key: Seq<char>) -> RequestView {
        RequestView {
            endpoint: e,
            app_id,
            app_key,
            country: Country::UnitedStates.code(),
            page: 1,
            params: ParametersView::empty(),
        }
    }

    /// The path of the request under the root. The version route has no country; only the
    /// search route has a page.
    pub open spec fn path(self) -> Seq<char> {
        match self.endpoint {
            Endpoint::Version => "/version"@,
            Endpoint::Categories => "/jobs/"@ + self.country + "/categories"@,
            Endpoint::Histogram => "/jobs/"@ + self.country + "/histogram"@,
            Endpoint::TopCompanies => "/jobs/"@ + self.country + "/top_companies"@,
            Endpoint::Geodata => "/jobs/"@ + self.country + "/geodata"@,
            Endpoint::History => "/jobs/"@ + self.country + "/history"@,
            Endpoint::Search => "/jobs/"@ + self.country + "/search/"@ + decimal(self.page as nat),
        }
    }

    /// The full address of the request.
    pub open spec fn url(self) -> Seq<char> {
        ROOT_URL@ + self.path()
    }

    /// The two credential pairs that every request carries.
    pub open spec fn credentials(self) -> Seq<PairView> {
        seq![("app_id"@, self.app_id), ("app_key"@, self.app_key)]
    }

    /// The query of the request: the credentials, then the filters.
    pub open spec fn query(self) -> Seq<PairView> {
        self.credentials() + self.params.query()
    }

    /// The request with other filters.
    pub open spec fn with_params(self, params: ParametersView) -> RequestView {
        RequestView { params, ..self }
    }
}

/// What every request offers to the code that sends it.
pub trait RequestBuilder {
    /// The request as the contracts see it.
    spec fn request(&self) -> RequestView;

    /// The path of the request under the root.
    fn get_request_url(&self) -> (r: String)
        ensures
            r@ == self.request().path(),
    ;

    /// The client whose credentials the request carries.
    fn get_client(&self) -> (r: &Client)
        ensures
            r.app_id@ == self.request().app_id,
            r.app_key@ == self.request().app_key,
    ;

    /// The filters of the request.
    fn get_parameters(&self) -> (r: &Parameters)
        ensures
            r@ == self.request().params,
    ;
}

/// In the whole query of a request, each filter other than the locations is sent once, with the
/// value it holds, when it is set, and not at all when it is unset: the credentials that come
/// first never carry a filter's key.
pub proof fn lemma_request_sends_set_filters(v: RequestView, k: Key)
    ensures
        values_for(v.query(), k.key_name()) == opt_seq(v.params.value_of(k)),
{
    let name = k.key_name();
    let creds = v.credentials();
    lemma_values_for_concat(creds, v.params.query(), name);
    lemma_key_name_shape(k);
    reveal_strlit("app_id");
    reveal_strlit("app_key");
    assert forall|i: int| 0 <= i < creds.len() implies (#[trigger] creds[i]).0 != name by {
        assert(creds[i].0[0] == 'a');
    }
    lemma_values_for_absent(creds, name);
    lemma_query_sends_set_filters(v.params, k);
    assert(Seq::<Seq<char>>::empty() + opt_seq(v.params.value_of(k)) =~= opt_seq(
        v.params.value_of(k),
    ));
}

/// The full address to which a request is sent.
pub fn request_url<R: RequestBuilder>(req: &R) -> (r: String)
    ensures
        r@ == req.request().url(),
{
    let mut url = String::from_str(ROOT_URL);
    let path = req.get_request_url();
    url.append(path.as_str());
    url
}

/// The query pairs sent with a request: `app_id` and `app_key`, then each filter that is set.
pub fn request_query<R: RequestBuilder>(req: &R) -> (r: Vec<(String, String)>)
    ensures
        pairs_view(r@) == req.request().query(),
{
    let client = req.get_client();
    let mut out: Vec<(String, String)> = Vec::new();
    out.push((String::from_str("app_id"), client.app_id.clone()));
    out.push((String::from_str("app_key"), client.app_key.clone()));
    let ghost auth = out@;
    assert(pairs_view(auth) =~= req.request().credentials());
    let mut rest = req.get_parameters().to_query();
    let ghost tail = rest@;
    out.append(&mut rest);
    assert(pairs_view(out@) =~= pairs_view(auth) + pairs_view(tail));
    out
}

/// `/jobs/{country}{route}`.
fn jobs_path(country: &str, route: &str) -> (r: String)
    ensures
        r@ == "/jobs/"@ + country@ + route@,
{
    let mut p = String::from_str("/jobs/");
    p.append(country);
    p.append(route);
    p
}

/// A request for the version of the service. It carries no filter.
pub struct VersionRequest<'a> {
    client: &'a Client,
    parameters: Parameters,
}

impl<'a> VersionRequest<'a> {
    #[verifier::type_invariant]
    spec fn has_no_filter(self) -> bool {
        self.parameters@ == ParametersView::empty()
    }

    /// A request with `client`'s credentials.
    pub fn new(client: &'a Client) -> (r: VersionRequest<'a>)
        ensures
            r.request() == RequestView::fresh(Endpoint::Version, client.app_id@, client.app_key@),
    {
        VersionRequest { client, parameters: Parameters::new() }
    }
}

impl<'a> RequestBuilder for VersionRequest<'a> {
    closed spec fn request(&self) -> RequestView {
        RequestView {
            params: ParametersView::empty(),
            ..RequestView::fresh(Endpoint::Version, self.client.app_id@, self.client.app_key@)
        }
    }

    fn get_request_url(&self) -> (r: String) {
        String::from_str("/version")
    }

    fn get_client(&self) -> (r: &Client) {
        self.client
    }

    fn get_parameters(&self) -> (r: &Parameters) {
        proof {
            use_type_invariant(self);
        }
        &self.parameters
    }
}

/// A version request sends its two credentials and nothing else.
pub proof fn lemma_version_sends_only_credentials(req: VersionRequest)
    ensures
        req.request().query() == req.request().credentials(),
        req.request().path() == "/version"@,
{
    crate::parameters::lemma_empty_query();
    assert(req.request().query() =~= req.request().credentials());
}

/// A request for the job categories of a country.
pub struct CategoriesRequest<'a> {
    client: &'a Client,
    parameters: Parameters,
    search_country: &'static str,
    search_page: usize,
}

impl<'a> RequestBuilder for CategoriesRequest<'a> {
    closed spec fn request(&self) -> RequestView {
        RequestView {
            endpoint: Endpoint::Categories,
            app_id: self.client.app_id@,
            app_key: self.client.app_key@,
            country: self.search_country@,
            page: self.search_page,
            params: self.parameters@,
        }
    }

    fn get_request_url(&self) -> (r: String) {
        jobs_path(self.search_country, "/categories")
    }

    fn get_client(&self) -> (r: &Client) {
        self.client
    }

    fn get_parameters(&self) -> (r: &Parameters) {
        &self.parameters
    }
}

impl<'a> CategoriesRequest<'a> {
    /// A request with `client`'s credentials, in the United States, on page 1, with no filter.
    pub fn new(client: &'a Client) -> (r: CategoriesRequest<'a>)
        ensures
            r.request() == RequestView::fresh(Endpoint::Categories, client.app_id@, client.app_key@),
    {
        CategoriesRequest {
            client,
            parameters: Parameters::new(),
            search_country: Country::UnitedStates.to_code(),
            search_page: 1,
        }
    }

    /// Asks about another country.
    pub fn country(self, country: Country) -> (r: Self)
        ensures
            r.request() == (RequestView { country: country.code(), ..self.request() }),
    {
        let mut req = self;
        req.search_country = country.to_code();
        req
    }
}

/// A request for the distribution of salaries.
pub struct HistogramRequest<'a> {
    client: &'a Client,
    parameters: Parameters,
    search_country: &'static str,
    search_page: usize,
}

impl<'a> RequestBuilder for HistogramRequest<'a> {
    closed spec fn request(&self) -> RequestView {
        RequestView {
            endpoint: Endpoint::Histogram,
            app_id: self.client.app_id@,
            app_key: self.client.app_key@,
            country: self.search_country@,
            page: self.search_page,
            params: self.parameters@,
        }
    }

    fn get_request_url(&self) -> (r: String) {
        jobs_path(self.search_country, "/histogram")
    }

    fn get_client(&self) -> (r: &Client) {
        self.client
    }

    fn get_parameters(&self) -> (r: &Parameters) {
        &self.parameters
    }
}

impl<'a> HistogramRequest<'a> {
    /// A request with `client`'s credentials, in the United States, on page 1, with no filter.
    pub fn new(client: &'a Client) -> (r: HistogramRequest<'a>)
        ensures
            r.request() == RequestView::fresh(Endpoint::Histogram, client.app_id@, client.app_key@),
    {
        HistogramRequest {
            client,
            parameters: Parameters::new(),
            search_country: Country::UnitedStates.to_code(),
            search_page: 1,
        }
    }

    /// Filters by keywords. Multiple terms may be space separated.
    pub fn what(self, what: &str) -> (r: Self)
        ensures
            r.request() == self.request().with_params(
                self.request().params.with_text(TextField::What, what@),
            ),
    {
        let mut req = self;
        req.parameters.set_text(TextField::What, what);
        req
    }

    /// Asks about another country.
    pub fn country(self, country: Country) -> (r: Self)
        ensures
            r.request() == (RequestView { country: country.code(), ..self.request() }),
    {
        let mut req = self;
        req.search_country = country.to_code();
        req
    }

    /// Filters by one more level of a location, in the form a `LocationDetail` gives it.
    /// Up to eight levels are kept; further ones are dropped.
    pub fn location(self, location: &str) -> (r: Self)
        ensures
            r.request() == self.request().with_params(
                self.request().params.with_location(location@),
            ),
    {
        let mut req = self;
        req.parameters.add_location(location);
        req
    }

    /// Filters by a category tag, as the categories route returns it.
    pub fn category(self, category: &str) -> (r: Self)
        ensures
            r.request() == self.request().with_params(
                self.request().params.with_text(TextField::Category, category@),
            ),
    {
        let mut req = self;
        req.parameters.set_text(TextField::Category, category);
        req
    }
}

/// A request for the average salary month by month.
pub struct HistoryRequest<'a> {
    client: &'a Client,
    parameters: Parameters,
    search_country: &'static str,
    search_page: usize,
}

impl<'a> RequestBuilder for HistoryRequest<'a> {
    closed spec fn request(&self) -> RequestView {
        RequestView {
            endpoint: Endpoint::History,
            app_id: self.client.app_id@,
            app_key: self.client.app_key@,
            country: self.search_country@,
            page: self.search_page,
            params: self.parameters@,
        }
    }

    fn get_request_url(&self) -> (r: String) {
        jobs_path(self.search_country, "/history")
    }

    fn get_client(&self) -> (r: &Client) {
        self.client
    }

    fn get_parameters(&self) -> (r: &Parameters) {
        &self.parameters
    }
}

impl<'a> HistoryRequest<'a> {
    /// A request with `client`'s credentials, in the United States, on page 1, with no filter.
    pub fn new(client: &'a Client) -> (r: HistoryRequest<'a>)
        ensures
            r.request() == RequestView::fresh(Endpoint::History, client.app_id@, client.app_key@),
    {
        HistoryRequest {
            client,
            parameters: Parameters::new(),
            search_country: Country::UnitedStates.to_code(),
            search_page: 1,
        }
    }

    /// Sets the number of months back for which data is returned.
    pub fn months(self, months: usize) -> (r: Self)
        ensures
            r.request() == self.request().with_params(
                self.request().params.with_number(NumberField::Months, months),
            ),
    {
        let mut req = self;
        req.parameters.set_number(NumberField::Months, months);
        req
    }

    /// Asks about another country.
    pub fn country(self, country: Country) -> (r: Self)
        ensures
            r.request() == (RequestView { country: country.code(), ..self.request() }),
    {
        let mut req = self;
        req.search_country = country.to_code();
        req
    }

    /// Filters by one more level of a location, in the form a `LocationDetail` gives it.
    /// Up to eight levels are kept; further ones are dropped.
    pub fn location(self, location: &str) -> (r: Self)
        ensures
            r.request() == self.request().with_params(
                self.request().params.with_location(location@),
            ),
    {
        let mut req = self;
        req.parameters.add_location(location);
        req
    }

    /// Filters by a category tag, as the categories route returns it.
    pub fn category(self, category: &str) -> (r: Self)
        ensures
            r.request() == self.request().with_params(
                self.request().params.with_text(TextField::Category, category@),
            ),
    {
        let mut req = self;
        req.parameters.set_text(TextField::Category, category);
        req
    }
}

/// A request for the employers with the most advertisements.
pub struct TopCompaniesRequest<'a> {
    client: &'a Client,
    parameters: Parameters,
    search_country: &'static str,
    search_page: usize,
}

impl<'a> RequestBuilder for TopCompaniesRequest<'a> {
    closed spec fn request(&self) -> RequestView {
        RequestView {
            endpoint: Endpoint::TopCompanies,
            app_id: self.client.app_id@,
            app_key: self.client.app_key@,
            country: self.search_country@,
            page: self.search_page,
            params: self.parameters@,
        }
    }

    fn get_request_url(&self) -> (r: String) {
        jobs_path(self.search_country, "/top_companies")
    }

    fn get_client(&self) -> (r: &Client) {
        self.client
    }

    fn get_parameters(&self) -> (r: &Parameters) {
        &self.parameters
    }
}

impl<'a> TopCompaniesRequest<'a> {
    /// A request with `client`'s credentials, in the United States, on page 1, with no filter.
    pub fn new(client: &'a Client) -> (r: TopCompaniesRequest<'a>)
        ensures
            r.request() == RequestView::fresh(Endpoint::TopCompanies, client.app_id@, client.app_key@),
    {
        TopCompaniesRequest {
            client,
            parameters: Parameters::new(),
            search_country: Country::UnitedStates.to_code(),
            search_page: 1,
        }
    }

    /// Filters by keywords. Multiple terms may be space separated.
    pub fn what(self, what: &str) -> (r: Self)
        ensures
            r.request() == self.request().with_params(
                self.request().params.with_text(TextField::What, what@),
            ),
    {
        let mut req = self;
        req.parameters.set_text(TextField::What, what);
        req
    }

    /// Asks about another country.
    pub fn country(self, country: Country) -> (r: Self)
        ensures
            r.request() == (RequestView { country: country.code(), ..self.request() }),
    {
        let mut req = self;
        req.search_country = country.to_code();
        req
    }

    /// Filters by one more level of a location, in the form a `LocationDetail` gives it.
    /// Up to eight levels are kept; further ones are dropped.
    pub fn location(self, location: &str) -> (r: Self)
        ensures
            r.request() == self.request().with_params(
                self.request().params.with_location(location@),
            ),
    {
        let mut req = self;
        req.parameters.add_location(location);
        req
    }

    /// Filters by a category tag, as the categories route returns it.
    pub fn category(self, category: &str) -> (r: Self)
        ensures
            r.request() == self.request().with_params(
                self.request().params.with_text(TextField::Category, category@),
            ),
    {
        let mut req = self;
        req.parameters.set_text(TextField::Category, category);
        req
    }
}

/// A request for salary data of the locations inside an area.
pub struct GeodataRequest<'a> {
    client: &'a Client,
    parameters: Parameters,
    search_country: &'static str,
    search_page: usize,
}

impl<'a> RequestBuilder for GeodataRequest<'a> {
    closed spec fn request(&self) -> RequestView {
        RequestView {
            endpoint: Endpoint::Geodata,
            app_id: self.client.app_id@,
            app_key: self.client.app_key@,
            country: self.search_country@,
            page: self.search_page,
            params: self.parameters@,
        }
    }

    fn get_request_url(&self) -> (r: String) {
        jobs_path(self.search_country, "/geodata")
    }

    fn get_client(&self) -> (r: &Client) {
        self.client
    }

    fn get_parameters(&self) -> (r: &Parameters) {
        &self.parameters
    }
}

impl<'a> GeodataRequest<'a> {
    /// A request with `client`'s credentials, in the United States, on page 1, with no filter.
    pub fn new(client: &'a Client) -> (r: GeodataRequest<'a>)
        ensures
            r.request() == RequestView::fresh(Endpoint::Geodata, client.app_id@, client.app_key@),
    {
        GeodataRequest {
            client,
            parameters: Parameters::new(),
            search_country: Country::UnitedStates.to_code(),
            search_page: 1,
        }
    }

    /// Asks about another country.
    pub fn country(self, country: Country) -> (r: Self)
        ensures
            r.request() == (RequestView { country: country.code(), ..self.request() }),
    {
        let mut req = self;
        req.search_country = country.to_code();
        req
    }

    /// Filters by one more level of a location, in the form a `LocationDetail` gives it.
    /// Up to eight levels are kept; further ones are dropped.
    pub fn location(self, location: &str) -> (r: Self)
        ensures
            r.request() == self.request().with_params(
                self.request().params.with_location(location@),
            ),
    {
        let mut req = self;
        req.parameters.add_location(location);
        req
    }

    /// Filters by a category tag, as the categories route returns it.
    pub fn category(self, category: &str) -> (r: Self)
        ensures
            r.request() == self.request().with_params(
                self.request().params.with_text(TextField::Category, category@),
            ),
    {
        let mut req = self;
        req.parameters.set_text(TextField::Category, category);
        req
    }
}

/// A search of the job advertisements.
pub struct SearchRequest<'a> {
    client: &'a Client,
    parameters: Parameters,
    search_country: &'static str,
    search_page: usize,
}

impl<'a> RequestBuilder for SearchRequest<'a> {
    closed spec fn request(&self) -> RequestView {
        RequestView {
            endpoint: Endpoint::Search,
            app_id: self.client.app_id@,
            app_key: self.client.app_key@,
            country: self.search_country@,
            page: self.search_page,
            params: self.parameters@,
        }
    }

    fn get_request_url(&self) -> (r: String) {
        let mut p = jobs_path(self.search_country, "/search/");
        let page = decimal_string(self.search_page);
        p.append(page.as_str());
        p
    }

    fn get_client(&self) -> (r: &Client) {
        self.client
    }

    fn get_parameters(&self) -> (r: &Parameters) {
        &self.parameters
    }
}

impl<'a> SearchRequest<'a> {
    /// A request with `client`'s credentials, in the United States, on page 1, with no filter.
    pub fn new(client: &'a Client) -> (r: SearchRequest<'a>)
        ensures
            r.request() == RequestView::fresh(Endpoint::Search, client.app_id@, client.app_key@),
    {
        SearchRequest {
            client,
            parameters: Parameters::new(),
            search_country: Country::UnitedStates.to_code(),
            search_page: 1,
        }
    }

    /// Asks about another country.
    pub fn country(self, country: Country) -> (r: Self)
        ensures
            r.request() == (RequestView { country: country.code(), ..self.request() }),
    {
        let mut req = self;
        req.search_country = country.to_code();
        req
    }

    /// Filters by one more level of a location, in the form a `LocationDetail` gives it.
    /// Up to eight levels are kept; further ones are dropped.
    pub fn location(self, location: &str) -> (r: Self)
        ensures
            r.request() == self.request().with_params(
                self.request().params.with_location(location@),
            ),
    {
        let mut req = self;
        req.parameters.add_location(location);
        req
    }

    /// Filters by a category tag, as the categories route returns it.
    pub fn category(self, category: &str) -> (r: Self)
        ensures
            r.request() == self.request().with_params(
                self.request().params.with_text(TextField::Category, category@),
            ),
    {
        let mut req = self;
        req.parameters.set_text(TextField::Category, category);
        req
    }

    /// Sets the page of search results. Page 0 is ignored.
    pub fn page(self, page: usize) -> (r: Self)
        ensures
            r.request() == if page > 0 {
                RequestView { page, ..self.request() }
            } else {
                self.request()
            },
    {
        let mut req = self;
        if page > 0 {
            req.search_page = page;
        }
        req
    }

    /// Filters by keywords. Multiple terms may be space separated.
    pub fn what(self, what: &str) -> (r: Self)
        ensures
            r.request() == self.request().with_params(
                self.request().params.with_text(TextField::What, what@),
            ),
    {
        let mut req = self;
        req.parameters.set_text(TextField::What, what);
        req
    }

    /// Filters by keywords that must all be found.
    pub fn what_and(self, what_and: &str) -> (r: Self)
        ensures
            r.request() == self.request().with_params(
                self.request().params.with_text(TextField::WhatAnd, what_and@),
            ),
    {
        let mut req = self;
        req.parameters.set_text(TextField::WhatAnd, what_and);
        req
    }

    /// Filters by a phrase that must be found in the description or the title.
    pub fn what_phrase(self, what_phrase: &str) -> (r: Self)
        ensures
            r.request() == self.request().with_params(
                self.request().params.with_text(TextField::WhatPhrase, what_phrase@),
            ),
    {
        let mut req = self;
        req.parameters.set_text(TextField::WhatPhrase, what_phrase);
        req
    }

    /// Filters by keywords of which any may be found.
    pub fn what_or(self, what_or: &str) -> (r: Self)
        ensures
            r.request() == self.request().with_params(
                self.request().params.with_text(TextField::WhatOr, what_or@),
            ),
    {
        let mut req = self;
        req.parameters.set_text(TextField::WhatOr, what_or);
        req
    }

    /// Leaves out jobs with any of these keywords.
    pub fn what_exclude(self, what_exclude: &str) -> (r: Self)
        ensures
            r.request() == self.request().with_params(
                self.request().params.with_text(TextField::WhatExclude, what_exclude@),
            ),
    {
        let mut req = self;
        req.parameters.set_text(TextField::WhatExclude, what_exclude);
        req
    }

    /// Filters by a geographic centre: a place name, a postal code, ... It is sent as `where`.
    pub fn place(self, place: &str) -> (r: Self)
        ensures
            r.request() == self.request().with_params(
                self.request().params.with_text(TextField::Place, place@),
            ),
    {
        let mut req = self;
        req.parameters.set_text(TextField::Place, place);
        req
    }

    /// Filters by keywords searched in the title only.
    pub fn title_only(self, title_only: &str) -> (r: Self)
        ensures
            r.request() == self.request().with_params(
                self.request().params.with_text(TextField::TitleOnly, title_only@),
            ),
    {
        let mut req = self;
        req.parameters.set_text(TextField::TitleOnly, title_only);
        req
    }

    /// Includes jobs whose salary is unknown.
    pub fn salary_include_unknown(self) -> (r: Self)
        ensures
            r.request() == self.request().with_params(
                self.request().params.with_flag(Flag::SalaryIncludeUnknown),
            ),
    {
        let mut req = self;
        req.parameters.set_flag(Flag::SalaryIncludeUnknown);
        req
    }

    /// Returns full time jobs only.
    pub fn full_time(self) -> (r: Self)
        ensures
            r.request() == self.request().with_params(
                self.request().params.with_flag(Flag::FullTime),
            ),
    {
        let mut req = self;
        req.parameters.set_flag(Flag::FullTime);
        req
    }

    /// Returns part time jobs only.
    pub fn part_time(self) -> (r: Self)
        ensures
            r.request() == self.request().with_params(
                self.request().params.with_flag(Flag::PartTime),
            ),
    {
        let mut req = self;
        req.parameters.set_flag(Flag::PartTime);
        req
    }

    /// Returns contract jobs only.
    pub fn contract(self) -> (r: Self)
        ensures
            r.request() == self.request().with_params(
                self.request().params.with_flag(Flag::Contract),
            ),
    {
        let mut req = self;
        req.parameters.set_flag(Flag::Contract);
        req
    }

    /// Returns permanent jobs only.
    pub fn permanent(self) -> (r: Self)
        ensures
            r.request() == self.request().with_params(
                self.request().params.with_flag(Flag::Permanent),
            ),
    {
        let mut req = self;
        req.parameters.set_flag(Flag::Permanent);
        req
    }

    /// Filters by the canonical name of a company.
    pub fn company(self, company: &str) -> (r: Self)
        ensures
            r.request() == self.request().with_params(
                self.request().params.with_text(TextField::Company, company@),
            ),
    {
        let mut req = self;
        req.parameters.set_text(TextField::Company, company);
        req
    }

    /// Filters by the distance in kilometres from the centre given by `place`.
    pub fn distance(self, distance: usize) -> (r: Self)
        ensures
            r.request() == self.request().with_params(
                self.request().params.with_number(NumberField::Distance, distance),
            ),
    {
        let mut req = self;
        req.parameters.set_number(NumberField::Distance, distance);
        req
    }

    /// Sets the number of results on a page. Zero is ignored.
    pub fn results_per_page(self, results_per_page: usize) -> (r: Self)
        ensures
            r.request() == if results_per_page > 0 {
                self.request().with_params(
                    self.request().params.with_number(NumberField::ResultsPerPage, results_per_page),
                )
            } else {
                self.request()
            },
    {
        let mut req = self;
        if results_per_page > 0 {
            req.parameters.set_number(NumberField::ResultsPerPage, results_per_page);
        }
        req
    }

    /// Sets the age in days of the oldest advertisement returned.
    pub fn max_days_old(self, max_days_old: usize) -> (r: Self)
        ensures
            r.request() == self.request().with_params(
                self.request().params.with_number(NumberField::MaxDaysOld, max_days_old),
            ),
    {
        let mut req = self;
        req.parameters.set_number(NumberField::MaxDaysOld, max_days_old);
        req
    }

    /// Sets the lowest salary of the jobs returned.
    pub fn salary_min(self, salary_min: usize) -> (r: Self)
        ensures
            r.request() == self.request().with_params(
                self.request().params.with_number(NumberField::SalaryMin, salary_min),
            ),
    {
        let mut req = self;
        req.parameters.set_number(NumberField::SalaryMin, salary_min);
        req
    }

    /// Sets the highest salary of the jobs returned.
    pub fn salary_max(self, salary_max: usize) -> (r: Self)
        ensures
            r.request() == self.request().with_params(
                self.request().params.with_number(NumberField::SalaryMax, salary_max),
            ),
    {
        let mut req = self;
        req.parameters.set_number(NumberField::SalaryMax, salary_max);
        req
    }

    /// Sets the order of the results.
    pub fn sort_by(self, sort_by: SortBy) -> (r: Self)
        ensures
            r.request() == self.request().with_params(
                ParametersView { sort_by: Some(sort_by), ..self.request().params },
            ),
    {
        let mut req = self;
        req.parameters.set_sort_by(sort_by);
        req
    }

    /// Sets the direction of the order of the results.
    pub fn sort_dir(self, sort_dir: SortDirection) -> (r: Self)
        ensures
            r.request() == self.request().with_params(
                ParametersView { sort_dir: Some(sort_dir), ..self.request().params },
            ),
    {
        let mut req = self;
        req.parameters.set_sort_dir(sort_dir);
        req
    }
}

} // verus!
