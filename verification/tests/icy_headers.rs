use gensokyo_radio::icy::{plan_from_headers, plan_from_icy_headers};
use gensokyo_radio::prefetch::{PlanError, StreamPlan};
use http::{HeaderMap, HeaderValue};
use icy_metadata::IcyHeaders;

fn headers(pairs: &[(&'static str, &'static str)]) -> HeaderMap {
    let mut map = HeaderMap::new();
    for (name, value) in pairs {
        map.insert(*name, HeaderValue::from_static(value));
    }
    map
}

#[test]
fn plan_from_icy_bitrate_and_interval() {
    let map = headers(&[("icy-br", "128"), ("icy-metaint", "16000")]);
    let (parsed, plan) = plan_from_headers(&map);
    assert_eq!(parsed.bitrate(), Some(128));
    assert_eq!(plan, Ok(StreamPlan { prefetch_bytes: 163840, metadata_interval: Some(16000) }));
}

#[test]
fn plan_from_headers_without_metadata_interval() {
    let map = headers(&[("ice-bitrate", "320")]);
    let (_, plan) = plan_from_headers(&map);
    assert_eq!(plan, Ok(StreamPlan { prefetch_bytes: 409600, metadata_interval: None }));
}

#[test]
fn plan_from_headers_takes_the_first_of_several_bitrates() {
    let map = headers(&[("icy-br", "64, 128"), ("icy-metaint", "8192")]);
    let (_, plan) = plan_from_headers(&map);
    assert_eq!(plan, Ok(StreamPlan { prefetch_bytes: 81920, metadata_interval: Some(8192) }));
}

#[test]
fn plan_from_headers_without_bitrate_is_refused() {
    let map = headers(&[("icy-metaint", "16000"), ("content-type", "audio/mpeg")]);
    let (parsed, plan) = plan_from_headers(&map);
    assert_eq!(parsed.bitrate(), None);
    assert_eq!(plan, Err(PlanError::MissingBitrate));
    let (_, empty) = plan_from_headers(&HeaderMap::new());
    assert_eq!(empty, Err(PlanError::MissingBitrate));
}

#[test]
fn plan_from_headers_with_huge_bitrate_is_refused() {
    let map = headers(&[("icy-br", "4000000")]);
    let (_, plan) = plan_from_headers(&map);
    assert_eq!(plan, Err(PlanError::BudgetOverflow));
}

#[test]
fn zero_metadata_interval_counts_as_none() {
    let map = headers(&[("icy-br", "128"), ("icy-metaint", "0")]);
    let (_, plan) = plan_from_headers(&map);
    assert_eq!(plan, Ok(StreamPlan { prefetch_bytes: 163840, metadata_interval: None }));
}

#[test]
fn plan_from_parsed_headers_agrees_with_the_getters() {
    let map = headers(&[("x-audiocast-bitrate", "96"), ("icy-metaint", "4096")]);
    let parsed = IcyHeaders::parse_from_headers(&map);
    let plan = plan_from_icy_headers(&parsed);
    assert_eq!(plan, Ok(StreamPlan { prefetch_bytes: 122880, metadata_interval: Some(4096) }));
    assert_eq!(plan.unwrap().metadata_interval, parsed.metadata_interval().map(|n| n.get()));
}

#[test]
fn plan_from_default_headers_is_refused() {
    assert_eq!(plan_from_icy_headers(&IcyHeaders::default()), Err(PlanError::MissingBitrate));
}
