use adzuna::client::Client;
use adzuna::models::{ApiException, Country, SortBy, SortDirection};
use adzuna::request::{
    decoded_response, error_response, request_query, request_url, response_step,
    transport_failure, AdzunaError, ResponseStep, ROOT_URL,
};
use adzuna::RequestBuilder;

fn client() -> Client {
    Client::new("id".to_string(), "key".to_string())
}

fn owned(pairs: &[(&str, &str)]) -> Vec<(String, String)> {
    pairs.iter().map(|(k, v)| (k.to_string(), v.to_string())).collect()
}

#[test]
fn search_query_carries_keywords_and_page_size() {
    let c = client();
    let req = c.search().what("software engineer").results_per_page(7);
    assert_eq!(
        request_query(&req),
        owned(&[
            ("app_id", "id"),
            ("app_key", "key"),
            ("what", "software engineer"),
            ("results_per_page", "7"),
        ])
    );
    assert_eq!(request_url(&req), format!("{}/jobs/us/search/1", ROOT_URL));
}

#[test]
fn search_result_of_seven_records_is_kept_whole() {
    let records: Vec<u32> = (0..7).collect();
    let r = decoded_response(Some(records.clone()));
    assert_eq!(r, Ok(records));
    assert_eq!(r.unwrap().len(), 7);
}

#[test]
fn unauthorized_answer_carries_status_and_envelope() {
    assert_eq!(response_step(401), ResponseStep::DecodeErrorEnvelope(401));
    let envelope = ApiException {
        exception: "ImmediateHttpResponse".to_string(),
        doc: "...".to_string(),
        display: "...".to_string(),
    };
    let e = error_response(401, Some(envelope.clone()));
    assert_eq!(e.http_status, Some(401));
    assert_eq!(e.api_error, Some(envelope));
}

#[test]
fn undecodable_success_fails_without_status() {
    assert_eq!(response_step(200), ResponseStep::DecodeResponse);
    let r: Result<u32, AdzunaError> = decoded_response(None);
    let e = r.unwrap_err();
    assert_eq!(e.http_status, None);
    assert!(e.api_error.is_none());
    assert_ne!(e, error_response(401, None));
}

#[test]
fn error_answer_without_envelope_keeps_status() {
    assert_eq!(response_step(400), ResponseStep::DecodeErrorEnvelope(400));
    let e = error_response(400, None);
    assert_eq!(e.http_status, Some(400));
    assert!(e.api_error.is_none());
}

#[test]
fn transport_failure_carries_only_the_transport_status() {
    assert_eq!(transport_failure(None), AdzunaError::client_failure());
    assert_eq!(transport_failure(None).http_status, None);
    assert_eq!(transport_failure(Some(503)), AdzunaError::from_status(503));
    assert!(transport_failure(Some(503)).api_error.is_none());
}

#[test]
fn error_constructors_set_their_fields() {
    let e = AdzunaError::new(None, 500);
    assert_eq!(e.http_status, Some(500));
    assert!(e.api_error.is_none());
    assert_eq!(AdzunaError::from_status(404).http_status, Some(404));
}

#[test]
fn version_request_sends_only_credentials() {
    let c = client();
    let req = c.api_version();
    assert_eq!(
        request_query(&req),
        owned(&[("app_id", "id"), ("app_key", "key")])
    );
    assert_eq!(req.get_request_url(), "/version");
    assert_eq!(request_url(&req), "https://api.adzuna.com/v1/api/version");
}

#[test]
fn every_route_defaults_to_the_united_states() {
    let c = client();
    assert_eq!(c.categories().get_request_url(), "/jobs/us/categories");
    assert_eq!(c.histogram().get_request_url(), "/jobs/us/histogram");
    assert_eq!(c.top_companies().get_request_url(), "/jobs/us/top_companies");
    assert_eq!(c.geodata().get_request_url(), "/jobs/us/geodata");
    assert_eq!(c.history().get_request_url(), "/jobs/us/history");
    assert_eq!(c.search().get_request_url(), "/jobs/us/search/1");
}

#[test]
fn country_overrides_the_default() {
    let c = client();
    assert_eq!(
        c.categories().country(Country::UnitedKingdom).get_request_url(),
        "/jobs/gb/categories"
    );
    assert_eq!(
        c.histogram().country(Country::Germany).get_request_url(),
        "/jobs/de/histogram"
    );
    assert_eq!(
        c.top_companies().country(Country::France).get_request_url(),
        "/jobs/fr/top_companies"
    );
    assert_eq!(
        c.geodata().country(Country::India).get_request_url(),
        "/jobs/in/geodata"
    );
    assert_eq!(
        c.history().country(Country::SouthAfrica).get_request_url(),
        "/jobs/za/history"
    );
    assert_eq!(
        c.search().country(Country::NewZealand).page(3).get_request_url(),
        "/jobs/nz/search/3"
    );
}

#[test]
fn page_zero_keeps_the_previous_page() {
    let c = client();
    assert_eq!(c.search().page(0).get_request_url(), "/jobs/us/search/1");
    assert_eq!(c.search().page(12).page(0).get_request_url(), "/jobs/us/search/12");
    assert_eq!(c.search().page(12).page(5).get_request_url(), "/jobs/us/search/5");
}

#[test]
fn results_per_page_zero_keeps_the_previous_value() {
    let c = client();
    assert_eq!(c.search().results_per_page(0).get_parameters().results_per_page, None);
    let req = c.search().results_per_page(20).results_per_page(0);
    assert_eq!(req.get_parameters().results_per_page, Some(20));
    let req = c.search().results_per_page(20).results_per_page(50);
    assert_eq!(req.get_parameters().results_per_page, Some(50));
}

#[test]
fn full_time_twice_sends_the_same_as_once() {
    let c = client();
    let once = request_query(&c.search().full_time());
    let thrice = request_query(&c.search().full_time().full_time().full_time());
    assert_eq!(once, thrice);
    assert_eq!(
        once,
        owned(&[("app_id", "id"), ("app_key", "key"), ("full_time", "1")])
    );
}

#[test]
fn nine_locations_send_the_first_eight() {
    let c = client();
    let mut req = c.top_companies();
    for name in ["a", "b", "c", "d", "e", "f", "g", "h", "i"] {
        req = req.location(name);
    }
    let q = request_query(&req);
    assert_eq!(
        q,
        owned(&[
            ("app_id", "id"),
            ("app_key", "key"),
            ("location0", "a"),
            ("location1", "b"),
            ("location2", "c"),
            ("location3", "d"),
            ("location4", "e"),
            ("location5", "f"),
            ("location6", "g"),
            ("location7", "h"),
        ])
    );
}

#[test]
fn last_value_set_is_the_one_sent() {
    let c = client();
    let req = c
        .search()
        .what("rust")
        .what("go")
        .distance(5)
        .distance(15)
        .sort_by(SortBy::Date)
        .sort_by(SortBy::Salary)
        .sort_dir(SortDirection::Up)
        .sort_dir(SortDirection::Down);
    assert_eq!(
        request_query(&req),
        owned(&[
            ("app_id", "id"),
            ("app_key", "key"),
            ("what", "go"),
            ("distance", "15"),
            ("sort_dir", "down"),
            ("sort_by", "salary"),
        ])
    );
}

#[test]
fn every_search_filter_is_sent_in_order() {
    let c = client();
    let req = c
        .search()
        .sort_by(SortBy::Relevance)
        .sort_dir(SortDirection::Up)
        .salary_max(90000)
        .salary_min(40000)
        .max_days_old(30)
        .results_per_page(10)
        .distance(25)
        .company("ACME")
        .permanent()
        .contract()
        .part_time()
        .full_time()
        .salary_include_unknown()
        .place("austin")
        .title_only("developer")
        .what_exclude("php")
        .what_or("rust go")
        .what_phrase("web services")
        .what_and("senior backend")
        .what("engineer")
        .category("it-jobs")
        .location("US")
        .location("Texas");
    assert_eq!(
        request_query(&req),
        owned(&[
            ("app_id", "id"),
            ("app_key", "key"),
            ("location0", "US"),
            ("location1", "Texas"),
            ("category", "it-jobs"),
            ("what", "engineer"),
            ("what_and", "senior backend"),
            ("what_phrase", "web services"),
            ("what_or", "rust go"),
            ("what_exclude", "php"),
            ("title_only", "developer"),
            ("where", "austin"),
            ("salary_include_unknown", "1"),
            ("full_time", "1"),
            ("part_time", "1"),
            ("contract", "1"),
            ("permanent", "1"),
            ("company", "ACME"),
            ("distance", "25"),
            ("results_per_page", "10"),
            ("max_days_old", "30"),
            ("salary_min", "40000"),
            ("salary_max", "90000"),
            ("sort_dir", "up"),
            ("sort_by", "relevance"),
        ])
    );
}

#[test]
fn statistics_routes_send_their_filters() {
    let c = client();
    assert_eq!(
        request_query(&c.history().months(6).category("it-jobs").location("UK")),
        owned(&[
            ("app_id", "id"),
            ("app_key", "key"),
            ("location0", "UK"),
            ("category", "it-jobs"),
            ("months", "6"),
        ])
    );
    assert_eq!(
        request_query(&c.histogram().what("photoshop").category("design")),
        owned(&[
            ("app_id", "id"),
            ("app_key", "key"),
            ("category", "design"),
            ("what", "photoshop"),
        ])
    );
    assert_eq!(
        request_query(&c.geodata().location("UK").location("London")),
        owned(&[
            ("app_id", "id"),
            ("app_key", "key"),
            ("location0", "UK"),
            ("location1", "London"),
        ])
    );
    assert_eq!(
        request_query(&c.top_companies().what("frontend").category("invalid")),
        owned(&[
            ("app_id", "id"),
            ("app_key", "key"),
            ("category", "invalid"),
            ("what", "frontend"),
        ])
    );
}

#[test]
fn client_exposes_its_credentials() {
    let c = client();
    let req = c.search();
    assert_eq!(req.get_client().app_id, "id");
    assert_eq!(req.get_client().app_key, "key");
    assert!(req.get_parameters().locations.is_empty());
}
