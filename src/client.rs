use vstd::prelude::*;
use crate::request::{
    CategoriesRequest, Endpoint, GeodataRequest, HistogramRequest, HistoryRequest, RequestBuilder,
    RequestView, SearchRequest, TopCompaniesRequest, VersionRequest,
};

verus! {

/// The entry point of the library: holds the credentials, and hands out one request builder
/// per route. Every builder starts in the United States, on page 1, with no filter.
pub struct Client {
    pub app_id: String,
    pub app_key: String,
}

impl Client {
    /// A client with the given credentials.
    pub fn new(app_id: String, app_key: String) -> (r: Client)
        ensures
            r.app_id == app_id,
            r.app_key == app_key,
    {
        Client { app_id, app_key }
    }

    /// Asks for the current version of the service.
    pub fn api_version(&self) -> (r: VersionRequest<'_>)
        ensures
            r.request() == RequestView::fresh(Endpoint::Version, self.app_id@, self.app_key@),
    {
        VersionRequest::new(self)
    }

    /// Lists the job categories.
    pub fn categories(&self) -> (r: CategoriesRequest<'_>)
        ensures
            r.request() == RequestView::fresh(Endpoint::Categories, self.app_id@, self.app_key@),
    {
        CategoriesRequest::new(self)
    }

    /// Asks for the average salary month by month.
    pub fn history(&self) -> (r: HistoryRequest<'_>)
        ensures
            r.request() == RequestView::fresh(Endpoint::History, self.app_id@, self.app_key@),
    {
        HistoryRequest::new(self)
    }

    /// Asks for salary data of the locations inside an area.
    pub fn geodata(&self) -> (r: GeodataRequest<'_>)
        ensures
            r.request() == RequestView::fresh(Endpoint::Geodata, self.app_id@, self.app_key@),
    {
        GeodataRequest::new(self)
    }

    /// Lists the employers with the most advertisements for the search terms given.
    pub fn top_companies(&self) -> (r: TopCompaniesRequest<'_>)
        ensures
            r.request() == RequestView::fresh(Endpoint::TopCompanies, self.app_id@, self.app_key@),
    {
        TopCompaniesRequest::new(self)
    }

    /// Asks for the distribution of salaries.
    pub fn histogram(&self) -> (r: HistogramRequest<'_>)
        ensures
            r.request() == RequestView::fresh(Endpoint::Histogram, self.app_id@, self.app_key@),
    {
        HistogramRequest::new(self)
    }

    /// Searches the job advertisements.
    pub fn search(&self) -> (r: SearchRequest<'_>)
        ensures
            r.request() == RequestView::fresh(Endpoint::Search, self.app_id@, self.app_key@),
    {
        SearchRequest::new(self)
    }
}

} // verus!
