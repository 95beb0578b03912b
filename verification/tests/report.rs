use weather_cli::errors::WeatherError;
use weather_cli::model::{Mode, Units, WeatherQuery};
use weather_cli::report::{current_report, forecast_report, resolve_api_key};
use weather_cli::pct::percent_encode;
use weather_cli::url::build_url;

const CANNED_CURRENT: &str = "{\"weather\":[{\"main\":\"Clear\",\"description\":\"clear sky\"}],\"main\":{\"temp\":72.5,\"feels_like\":70.1,\"humidity\":40}}";

#[test]
fn current_canned_round_trip() {
    let lines = current_report("Boston", Units::Imperial, Ok(CANNED_CURRENT.to_string()))
        .expect("canned body must decode");
    assert_eq!(lines.len(), 2);
    assert_eq!(lines[0], "Weather in Boston:");
    assert_eq!(
        lines[1],
        "Clear - clear sky, Temp: 72.5\u{b0}F (Feels like: 70.1\u{b0}F), Humidity: 40%"
    );
    let clear = lines[1].find("Clear").unwrap();
    let sky = lines[1].find("clear sky").unwrap();
    let temp = lines[1].find("72.5").unwrap();
    let feels = lines[1].find("70.1").unwrap();
    let hum = lines[1].find("40").unwrap();
    assert!(clear < sky && sky < temp && temp < feels && feels < hum);
}

#[test]
fn current_metric_degrees() {
    let lines = current_report("Oslo", Units::Metric, Ok(CANNED_CURRENT.to_string()))
        .expect("canned body must decode");
    assert_eq!(
        lines[1],
        "Clear - clear sky, Temp: 72.5\u{b0}C (Feels like: 70.1\u{b0}C), Humidity: 40%"
    );
}

#[test]
fn current_empty_weather_is_decode_error() {
    let body = "{\"weather\":[],\"main\":{\"temp\":72.5,\"feels_like\":70.1,\"humidity\":40}}";
    let r = current_report("Boston", Units::Imperial, Ok(body.to_string()));
    assert!(matches!(r, Err(WeatherError::Decode(_))));
}

#[test]
fn current_not_json_is_decode_error() {
    let r = current_report("Boston", Units::Imperial, Ok("not json at all".to_string()));
    assert!(matches!(r, Err(WeatherError::Decode(_))));
}

#[test]
fn current_missing_field_is_decode_error() {
    let body = "{\"weather\":[{\"main\":\"Clear\",\"description\":\"clear sky\"}],\"main\":{\"temp\":72.5,\"humidity\":40}}";
    let r = current_report("Boston", Units::Imperial, Ok(body.to_string()));
    assert!(matches!(r, Err(WeatherError::Decode(_))));
}

#[test]
fn current_fractional_humidity_is_decode_error() {
    let body = "{\"weather\":[{\"main\":\"Clear\",\"description\":\"clear sky\"}],\"main\":{\"temp\":72.5,\"feels_like\":70.1,\"humidity\":40.5}}";
    let r = current_report("Boston", Units::Imperial, Ok(body.to_string()));
    assert!(matches!(r, Err(WeatherError::Decode(_))));
}

#[test]
fn network_failure_yields_network_error_and_no_lines() {
    let r = current_report(
        "Boston",
        Units::Imperial,
        Err("connection refused".to_string()),
    );
    match r {
        Err(WeatherError::Network(cause)) => assert_eq!(cause, "connection refused"),
        other => panic!("expected a network error, got {:?}", other.is_ok()),
    }
    let rf = forecast_report(Units::Imperial, Err("dns failure".to_string()));
    assert!(matches!(rf, Err(WeatherError::Network(_))));
}

fn forecast_body(n: usize) -> String {
    let mut items = Vec::new();
    for i in 0..n {
        items.push(format!(
            "{{\"dt_txt\":\"2024-05-0{} 12:00:00\",\"main\":{{\"temp\":6{}.5,\"feels_like\":60.0,\"humidity\":50}},\"weather\":[{{\"main\":\"Rain\",\"description\":\"light rain\"}}]}}",
            i + 1,
            i
        ));
    }
    format!("{{\"list\":[{}]}}", items.join(","))
}

#[test]
fn forecast_caps_at_five_lines_in_order() {
    let lines = forecast_report(Units::Imperial, Ok(forecast_body(6)))
        .expect("canned forecast must decode");
    assert_eq!(lines.len(), 6);
    assert_eq!(lines[0], "5-Day Forecast:");
    for i in 0..5 {
        assert_eq!(
            lines[i + 1],
            format!(
                "2024-05-0{} 12:00:00 | Rain - light rain, Temp: 6{}.5\u{b0}F",
                i + 1,
                i
            )
        );
    }
}

#[test]
fn forecast_shows_fewer_entries_when_fewer_come() {
    let lines = forecast_report(Units::Imperial, Ok(forecast_body(2)))
        .expect("canned forecast must decode");
    assert_eq!(lines.len(), 3);
}

#[test]
fn forecast_empty_list_shows_header_only() {
    let lines = forecast_report(Units::Imperial, Ok("{\"list\":[]}".to_string()))
        .expect("empty forecast list must decode");
    assert_eq!(lines, vec!["5-Day Forecast:".to_string()]);
}

#[test]
fn forecast_bad_entry_is_decode_error() {
    let body = "{\"list\":[{\"dt_txt\":\"2024-05-01 12:00:00\",\"main\":{\"temp\":61.5},\"weather\":[]}]}";
    let r = forecast_report(Units::Imperial, Ok(body.to_string()));
    assert!(matches!(r, Err(WeatherError::Decode(_))));
}

#[test]
fn missing_api_key_is_config_error() {
    let missing = resolve_api_key(None).unwrap_err();
    assert!(missing.is_config());
    assert!(matches!(
        resolve_api_key(Some(String::new())),
        Err(WeatherError::Config(_))
    ));
    assert_eq!(resolve_api_key(Some("k-1".to_string())).unwrap(), "k-1");
}

#[test]
fn empty_city_is_rejected() {
    let r = WeatherQuery::new(String::new(), Units::Imperial, Mode::Current);
    assert!(matches!(r, Err(WeatherError::Config(_))));
}

#[test]
fn url_for_each_mode() {
    let q = WeatherQuery::new("London".to_string(), Units::Imperial, Mode::Current).unwrap();
    assert_eq!(
        build_url(&q, "KEY"),
        "http://api.openweathermap.org/data/2.5/weather?q=London&appid=KEY&units=imperial"
    );
    let f = WeatherQuery::new("London".to_string(), Units::Metric, Mode::Forecast).unwrap();
    assert_eq!(
        build_url(&f, "KEY"),
        "http://api.openweathermap.org/data/2.5/forecast?q=London&appid=KEY&units=metric"
    );
}

#[test]
fn url_encodes_city() {
    let q = WeatherQuery::new("New York".to_string(), Units::Imperial, Mode::Current).unwrap();
    assert_eq!(
        build_url(&q, "KEY"),
        "http://api.openweathermap.org/data/2.5/weather?q=New%20York&appid=KEY&units=imperial"
    );
    let s = WeatherQuery::new("S\u{e3}o Paulo".to_string(), Units::Imperial, Mode::Current).unwrap();
    assert_eq!(
        build_url(&s, "KEY"),
        "http://api.openweathermap.org/data/2.5/weather?q=S%C3%A3o%20Paulo&appid=KEY&units=imperial"
    );
}

#[test]
fn percent_encoding_exact_values() {
    assert_eq!(percent_encode("London"), "London");
    assert_eq!(percent_encode(""), "");
    assert_eq!(percent_encode("a b&c=d"), "a%20b%26c%3Dd");
    assert_eq!(percent_encode("-._~"), "-._~");
}

#[test]
fn error_messages_are_single_lines() {
    let m = WeatherError::Config("the API key is not set".to_string()).message();
    assert_eq!(m, "configuration error: the API key is not set");
    let n = WeatherError::Network("timed out".to_string()).message();
    assert_eq!(n, "could not reach the weather service: timed out");
    assert!(!n.contains('\n'));
}
