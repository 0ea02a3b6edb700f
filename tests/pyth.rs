use pyth_rs::client::{request_url, LATEST_ROUTE, PRICE_ROUTE};
use pyth_rs::encode::{decimal_token, digits, hex_token};
use pyth_rs::error::check_status;
use pyth_rs::query::{id_pairs, latest_query, price_query};
use pyth_rs::{ApiClient, ApiError, LatestParams, PriceParams, Pyth};

fn pairs(items: &[(&str, &str)]) -> Vec<(String, String)> {
    items.iter().map(|(k, v)| (k.to_string(), v.to_string())).collect()
}

#[test]
fn hex_round_trip_on_samples() {
    let samples: Vec<u64> = vec![0, 1, 9, 10, 15, 16, 255, 256, 4096, 0xdead_beef, u64::MAX - 1, u64::MAX];
    for id in samples {
        let token = hex_token(id);
        assert_eq!(u64::from_str_radix(&token, 16).unwrap(), id);
        assert_eq!(token, format!("{id:x}"));
    }
}

#[test]
fn zero_encodes_as_single_digit() {
    assert_eq!(hex_token(0), "0");
    assert_eq!(decimal_token(0), "0");
}

#[test]
fn hex_tokens_are_lowercase_and_unpadded() {
    assert_eq!(hex_token(255), "ff");
    assert_eq!(hex_token(4096), "1000");
    assert_eq!(hex_token(u64::MAX), "ffffffffffffffff");
    assert_eq!(hex_token(0x0abc), "abc");
}

#[test]
fn decimal_tokens() {
    assert_eq!(decimal_token(1700000000), "1700000000");
    assert_eq!(decimal_token(u64::MAX), "18446744073709551615");
    assert_eq!(digits(5, 2), "101");
}

#[test]
fn historical_query_holds_ids_then_timestamp() {
    let params = PriceParams::new(vec![1, 255, 4096], 1700000000);
    assert_eq!(
        price_query(&params),
        pairs(&[("ids[]", "1"), ("ids[]", "ff"), ("ids[]", "1000"), ("timestamp", "1700000000")])
    );
}

#[test]
fn latest_query_has_no_timestamp() {
    let q = latest_query(&vec![1, 255, 4096]);
    assert_eq!(q, pairs(&[("ids[]", "1"), ("ids[]", "ff"), ("ids[]", "1000")]));
    assert!(q.iter().all(|(k, _)| k != "timestamp"));
    assert_ne!(PRICE_ROUTE, LATEST_ROUTE);
}

#[test]
fn empty_ids_give_no_id_pairs() {
    assert!(id_pairs(&vec![]).is_empty());
    assert!(latest_query(&vec![]).is_empty());
    let params = PriceParams::new(vec![], 7);
    assert_eq!(price_query(&params), pairs(&[("timestamp", "7")]));
}

#[test]
fn params_keep_their_fields() {
    let params = PriceParams::new(vec![3, 2, 1], 42);
    assert_eq!(params.ids, vec![3, 2, 1]);
    assert_eq!(params.timestamp, 42);
    let latest = LatestParams { ids: vec![5] };
    assert_eq!(latest.ids, vec![5]);
}

#[test]
fn url_is_base_then_route() {
    assert_eq!(request_url("https://h.example/v2", "updates/price/"), "https://h.example/v2/updates/price/");
    assert_eq!(request_url("https://h.example/v2", "updates/price/latest"), "https://h.example/v2/updates/price/latest");
    assert_eq!(request_url("https://h.example/v2/", "updates/price/"), "https://h.example/v2//updates/price/");
}

#[test]
fn client_keeps_its_base_url() {
    let pyth = Pyth::new("https://h.example/v2/".to_string()).unwrap();
    assert_eq!(pyth.base_url(), "https://h.example/v2/");
}

#[test]
fn historical_request_url_and_query() {
    let pyth = Pyth::new("https://h.example/v2".to_string()).unwrap();
    let req = pyth.price_request(PriceParams::new(vec![1, 255, 4096], 1700000000)).into_builder().build().unwrap();
    assert_eq!(req.method().as_str(), "GET");
    assert_eq!(req.url().path(), "/v2/updates/price/");
    let got: Vec<(String, String)> = req.url().query_pairs().map(|(k, v)| (k.into_owned(), v.into_owned())).collect();
    assert_eq!(
        got,
        pairs(&[("ids[]", "1"), ("ids[]", "ff"), ("ids[]", "1000"), ("timestamp", "1700000000")])
    );
}

#[test]
fn latest_request_url_and_query() {
    let pyth = Pyth::new("https://h.example/v2".to_string()).unwrap();
    let req = pyth.latest_price_request(vec![1, 255, 4096]).into_builder().build().unwrap();
    assert_eq!(req.url().path(), "/v2/updates/price/latest");
    let got: Vec<(String, String)> = req.url().query_pairs().map(|(k, v)| (k.into_owned(), v.into_owned())).collect();
    assert_eq!(got, pairs(&[("ids[]", "1"), ("ids[]", "ff"), ("ids[]", "1000")]));
}

#[test]
fn empty_latest_request_is_still_built() {
    let pyth = Pyth::new("https://h.example/v2".to_string()).unwrap();
    let req = pyth.latest_price_request(vec![]).into_builder().build().unwrap();
    assert_eq!(req.url().as_str(), "https://h.example/v2/updates/price/latest");
}

#[test]
fn success_status_passes_body() {
    assert!(matches!(check_status(200, "{}".to_string()), Ok(b) if b == "{}"));
    assert!(matches!(check_status(299, "x".to_string()), Ok(b) if b == "x"));
}

#[test]
fn other_status_is_a_status_error() {
    assert!(matches!(
        check_status(404, "missing".to_string()),
        Err(ApiError::Status { code: 404, body }) if body == "missing"
    ));
    assert!(matches!(check_status(199, String::new()), Err(ApiError::Status { code: 199, .. })));
    assert!(matches!(check_status(300, String::new()), Err(ApiError::Status { code: 300, .. })));
    assert!(matches!(check_status(500, String::new()), Err(ApiError::Status { code: 500, .. })));
}

#[test]
fn error_kinds_are_distinct() {
    let errors = vec![
        ApiError::Transport { message: "refused".to_string() },
        check_status(503, "busy".to_string()).unwrap_err(),
        ApiError::Decode { message: "bad json".to_string() },
    ];
    assert!(matches!(errors[0], ApiError::Transport { .. }));
    assert!(matches!(errors[1], ApiError::Status { code: 503, .. }));
    assert!(matches!(errors[2], ApiError::Decode { .. }));
}
