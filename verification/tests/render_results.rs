use kiwi_mcp_tools::json::{Json, JsonNumber};
use kiwi_mcp_tools::render::{format_flight_results, format_offer};

fn obj(pairs: Vec<(&str, Json)>) -> Json {
    Json::Obj(pairs.into_iter().map(|(k, v)| (k.to_string(), v)).collect())
}

fn text(s: &str) -> Json {
    Json::Str(s.to_string())
}

fn money(two_decimals: &str) -> Json {
    Json::Num(JsonNumber {
        int_value: None,
        uint_value: None,
        two_decimals: two_decimals.to_string(),
    })
}

fn minutes(total: i64) -> Json {
    obj(vec![(
        "total",
        Json::Num(JsonNumber {
            int_value: Some(total),
            uint_value: if total >= 0 { Some(total as u64) } else { None },
            two_decimals: format!("{}.00", total),
        }),
    )])
}

fn leg(from: &str, to: &str, airline: &str) -> Json {
    obj(vec![
        ("cityFrom", text(from)),
        ("cityTo", text(to)),
        ("airline", text(airline)),
    ])
}

fn full_offer() -> Json {
    obj(vec![
        ("price", money("123.45")),
        ("cityFrom", text("London")),
        ("cityTo", text("Paris")),
        ("flyFrom", text("LHR")),
        ("flyTo", text("CDG")),
        ("local_departure", text("2024-03-05T14:30:00.000+01:00")),
        ("local_arrival", text("soon")),
        ("duration", minutes(125)),
        (
            "airlines",
            Json::Arr(vec![text("Air A"), text("Air B")]),
        ),
        (
            "route",
            Json::Arr(vec![
                leg("London", "Amsterdam", "Air A"),
                leg("Amsterdam", "Vienna", "Air B"),
                leg("Vienna", "Paris", "Air A"),
            ]),
        ),
        ("bags_price", obj(vec![("1", money("25.50"))])),
        ("deep_link", text("https://example.com/book")),
    ])
}

const FULL_BLOCK: &str = "Flight 1: London (LHR) → Paris (CDG)\n\
Price: 123.45 EUR\n\
Departure: 05 Mar 2024, 14:30\n\
Arrival: soon\n\
Duration: 2h 5m\n\
Airline(s): Air A, Air B\n\
Stops: 2 stopovers\n\
First checked bag: 25.50 EUR\n\
Booking link: https://example.com/book\n\
Route details:\n\
\x20 Leg 1: London → Amsterdam (Air A)\n\
\x20 Leg 2: Amsterdam → Vienna (Air B)\n\
\x20 Leg 3: Vienna → Paris (Air A)\n";

const EMPTY_BLOCK: &str = "Flight 1: Unknown (???) → Unknown (???)\n\
Price: 0.00 USD\n\
Departure: Unknown\n\
Arrival: Unknown\n\
Duration: 0h 0m\n\
Airline(s): Unknown\n\
Stops: Direct flight\n\
Baggage information not available\n\
Booking link: Booking link not available\n";

#[test]
fn full_offer_block() {
    assert_eq!(format_offer(&full_offer(), 1, "EUR"), FULL_BLOCK);
}

#[test]
fn offer_without_any_field_uses_placeholders() {
    assert_eq!(format_offer(&obj(vec![]), 1, "USD"), EMPTY_BLOCK);
}

#[test]
fn missing_fields_do_not_disturb_other_lines() {
    let offer = obj(vec![
        ("cityFrom", text("London")),
        ("flyTo", text("CDG")),
        ("deep_link", text("https://example.com/book")),
    ]);
    let expected = "Flight 2: London (???) → Unknown (CDG)\n\
Price: 0.00 EUR\n\
Departure: Unknown\n\
Arrival: Unknown\n\
Duration: 0h 0m\n\
Airline(s): Unknown\n\
Stops: Direct flight\n\
Baggage information not available\n\
Booking link: https://example.com/book\n";
    assert_eq!(format_offer(&offer, 2, "EUR"), expected);
}

#[test]
fn empty_results_array() {
    let response = obj(vec![("data", Json::Arr(vec![]))]);
    assert_eq!(
        format_flight_results(&response, "EUR"),
        "No flights found matching your criteria."
    );
}

#[test]
fn missing_results_field() {
    let response = obj(vec![]);
    assert_eq!(
        format_flight_results(&response, "EUR"),
        "Unable to retrieve flight information. The API response was in an unexpected format."
    );
}

#[test]
fn non_array_results_field() {
    let response = obj(vec![("data", text("x"))]);
    assert_eq!(
        format_flight_results(&response, "EUR"),
        "Unable to retrieve flight information. The API response was in an unexpected format."
    );
}

#[test]
fn one_offer_has_no_divider() {
    let response = obj(vec![("data", Json::Arr(vec![full_offer()]))]);
    let out = format_flight_results(&response, "EUR");
    let expected = format!("Found 1 flights matching your criteria:\n\n{}", FULL_BLOCK);
    assert_eq!(out, expected);
    assert_eq!(out.matches("\n---\n\n").count(), 0);
}

#[test]
fn two_offers_have_one_divider_between() {
    let response = obj(vec![("data", Json::Arr(vec![full_offer(), obj(vec![])]))]);
    let out = format_flight_results(&response, "USD");
    let block1 = FULL_BLOCK.replace("123.45 EUR", "123.45 USD").replace("25.50 EUR", "25.50 USD");
    let expected = format!(
        "Found 2 flights matching your criteria:\n\n{}\n---\n\n{}",
        block1,
        EMPTY_BLOCK.replace("Flight 1", "Flight 2"),
    );
    assert_eq!(out, expected);
    assert_eq!(out.matches("\n---\n\n").count(), 1);
    assert!(!out.ends_with("---\n\n"));
}

#[test]
fn three_offers_have_two_dividers_and_none_after_last() {
    let response = obj(vec![(
        "data",
        Json::Arr(vec![obj(vec![]), obj(vec![]), obj(vec![])]),
    )]);
    let out = format_flight_results(&response, "USD");
    let expected = format!(
        "Found 3 flights matching your criteria:\n\n{}\n---\n\n{}\n---\n\n{}",
        EMPTY_BLOCK,
        EMPTY_BLOCK.replace("Flight 1", "Flight 2"),
        EMPTY_BLOCK.replace("Flight 1", "Flight 3"),
    );
    assert_eq!(out, expected);
    assert_eq!(out.matches("\n---\n\n").count(), 2);
    assert!(out.ends_with("Booking link: Booking link not available\n"));
}

#[test]
fn single_leg_route_is_direct_without_details() {
    let offer = obj(vec![("route", Json::Arr(vec![leg("A", "B", "X")]))]);
    let out = format_offer(&offer, 1, "EUR");
    assert!(out.contains("Stops: Direct flight\n"));
    assert!(!out.contains("Route details:"));
}

#[test]
fn two_leg_route_is_one_stopover_with_details() {
    let offer = obj(vec![(
        "route",
        Json::Arr(vec![leg("A", "B", "X"), leg("B", "C", "Y")]),
    )]);
    let out = format_offer(&offer, 1, "EUR");
    assert!(out.contains("Stops: 1 stopover\n"));
    assert!(out.contains("Route details:\n  Leg 1: A → B (X)\n  Leg 2: B → C (Y)\n"));
}

#[test]
fn empty_route_array_is_direct_without_details() {
    let offer = obj(vec![("route", Json::Arr(vec![]))]);
    let out = format_offer(&offer, 1, "EUR");
    assert!(out.contains("Stops: Direct flight\n"));
    assert!(!out.contains("Route details:"));
}

#[test]
fn bags_price_without_first_bag_entry_shows_zero() {
    let offer = obj(vec![("bags_price", obj(vec![("2", money("40.00"))]))]);
    let out = format_offer(&offer, 1, "EUR");
    assert!(out.contains("First checked bag: 0.00 EUR\n"));
}

#[test]
fn airlines_with_non_string_items_keeps_only_strings() {
    let offer = obj(vec![(
        "airlines",
        Json::Arr(vec![text("Air A"), Json::Null, text("Air B")]),
    )]);
    let out = format_offer(&offer, 1, "EUR");
    assert!(out.contains("Airline(s): Air A, Air B\n"));
}

#[test]
fn duration_of_125_minutes_renders_2h_5m() {
    let offer = obj(vec![("duration", minutes(125))]);
    let out = format_offer(&offer, 1, "EUR");
    assert!(out.contains("Duration: 2h 5m\n"));
}

#[test]
fn duration_of_zero_minutes_renders_0h_0m() {
    let offer = obj(vec![("duration", minutes(0))]);
    let out = format_offer(&offer, 1, "EUR");
    assert!(out.contains("Duration: 0h 0m\n"));
}
