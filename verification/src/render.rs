//! The result formatter: turns the search API's response document into the
//! tool's human-readable text.
//!
//! Formatting never fails. A response without an array under `data` yields a
//! fixed diagnostic line; an empty array a fixed no-results line; otherwise a
//! header with the count and one fixed-order block per offer, consecutive
//! blocks separated by a divider. Within a block every missing field falls
//! back to its documented placeholder and never disturbs the other lines.

use vstd::prelude::*;
use crate::json::{Json, spec_field, spec_str_field_or, json_field, str_field_or};
use crate::text::{spec_dec, spec_duration_text, push_dec, duration_text, u64_text};
use crate::time::{spec_timestamp_display, timestamp_display};

verus! {

/// The two-decimal text of the number under `key`; `0.00` where the field is
/// absent or not a number.
pub open spec fn spec_money_field(j: Json, key: Seq<char>) -> Seq<char> {
    match spec_field(j, key) {
        Some(Json::Num(n)) => n.two_decimals@,
        _ => ("0.00")@,
    }
}

fn money_field(j: &Json, key: &str) -> (r: String)
    ensures
        r@ == spec_money_field(*j, key@),
{
    match json_field(j, key) {
        Some(Json::Num(n)) => n.two_decimals.clone(),
        _ => String::from_str("0.00"),
    }
}

/// The offer's total duration in minutes: the signed reading of the number
/// under `duration.total`, or zero where any of that is absent.
pub open spec fn spec_duration_minutes(offer: Json) -> i64 {
    match spec_field(offer, ("duration")@) {
        Some(d) => match spec_field(d, ("total")@) {
            Some(Json::Num(n)) => match n.int_value {
                Some(i) => i,
                None => 0,
            },
            _ => 0,
        },
        None => 0,
    }
}

fn duration_minutes(offer: &Json) -> (r: i64)
    ensures
        r == spec_duration_minutes(*offer),
{
    match json_field(offer, "duration") {
        Some(d) => match json_field(d, "total") {
            Some(Json::Num(n)) => match n.int_value {
                Some(i) => i,
                None => 0,
            },
            _ => 0,
        },
        None => 0,
    }
}

/// The offer's stopover count: one less than the number of route legs, with
/// zero for an absent, non-array or empty route.
pub open spec fn spec_stops(offer: Json) -> int {
    match spec_field(offer, ("route")@) {
        Some(Json::Arr(v)) => if v@.len() == 0 {
            0
        } else {
            v@.len() - 1
        },
        _ => 0,
    }
}

fn stops_of(offer: &Json) -> (r: usize)
    ensures
        r as int == spec_stops(*offer),
{
    match json_field(offer, "route") {
        Some(Json::Arr(v)) => if v.len() == 0 {
            0
        } else {
            v.len() - 1
        },
        _ => 0,
    }
}

/// The stopover description: `Direct flight` for none, `1 stopover` for one,
/// and the count followed by ` stopovers` for more.
pub open spec fn spec_stop_text(n: int) -> Seq<char> {
    if n == 0 {
        ("Direct flight")@
    } else if n == 1 {
        ("1 stopover")@
    } else {
        spec_dec(n as nat) + (" stopovers")@
    }
}

fn stop_text(n: u64) -> (r: String)
    ensures
        r@ == spec_stop_text(n as int),
{
    if n == 0 {
        String::from_str("Direct flight")
    } else if n == 1 {
        String::from_str("1 stopover")
    } else {
        let mut out = u64_text(n);
        out.append(" stopovers");
        out
    }
}

/// The texts of the string items of `items`, in order, skipping the rest.
pub open spec fn spec_str_items(items: Seq<Json>) -> Seq<Seq<char>>
    decreases items.len(),
{
    if items.len() == 0 {
        Seq::empty()
    } else {
        spec_str_items(items.drop_last()) + (match items.last() {
            Json::Str(s) => seq![s@],
            _ => Seq::<Seq<char>>::empty(),
        })
    }
}

/// The parts joined with `, `.
pub open spec fn spec_join(parts: Seq<Seq<char>>) -> Seq<char>
    decreases parts.len(),
{
    if parts.len() == 0 {
        Seq::empty()
    } else if parts.len() == 1 {
        parts[0]
    } else {
        spec_join(parts.drop_last()) + (", ")@ + parts.last()
    }
}

proof fn lemma_str_items_push(items: Seq<Json>, x: Json)
    ensures
        spec_str_items(items.push(x)) == spec_str_items(items) + (match x {
            Json::Str(s) => seq![s@],
            _ => Seq::<Seq<char>>::empty(),
        }),
{
    let p = items.push(x);
    assert(p.drop_last() =~= items);
    assert(p.last() == x);
}

proof fn lemma_join_push(parts: Seq<Seq<char>>, x: Seq<char>)
    ensures
        spec_join(parts.push(x)) == if parts.len() == 0 {
            x
        } else {
            spec_join(parts) + (", ")@ + x
        },
{
    let p = parts.push(x);
    assert(p.drop_last() =~= parts);
    assert(p.last() == x);
    if parts.len() == 0 {
        assert(spec_join(p) == p[0]);
    }
}

/// The airlines line's value: the string items of the `airlines` array
/// joined with `, `, or `Unknown` where the field is absent or not an array.
pub open spec fn spec_airlines_text(offer: Json) -> Seq<char> {
    match spec_field(offer, ("airlines")@) {
        Some(Json::Arr(v)) => spec_join(spec_str_items(v@)),
        _ => ("Unknown")@,
    }
}

fn join_str_items(items: &Vec<Json>) -> (r: String)
    ensures
        r@ == spec_join(spec_str_items(items@)),
{
    let mut out = String::new();
    let mut first: bool = true;
    let mut i: usize = 0;
    while i < items.len()
        invariant
            i <= items.len(),
            first <==> spec_str_items(items@.subrange(0, i as int)).len() == 0,
            out@ == spec_join(spec_str_items(items@.subrange(0, i as int))),
        decreases items.len() - i,
    {
        let ghost prefix = items@.subrange(0, i as int);
        proof {
            assert(items@.subrange(0, (i + 1) as int) =~= prefix.push(items@[i as int]));
            lemma_str_items_push(prefix, items@[i as int]);
        }
        match &items[i] {
            Json::Str(s) => {
                proof {
                    lemma_join_push(spec_str_items(prefix), s@);
                    assert(spec_str_items(prefix).push(s@) =~= spec_str_items(prefix) + seq![s@]);
                }
                if !first {
                    out.append(", ");
                }
                out.append(s.as_str());
                first = false;
                proof {
                    assert(out@ =~= spec_join(spec_str_items(items@.subrange(0, (i + 1) as int))));
                }
            },
            _ => {
                proof {
                    assert(spec_str_items(prefix) + Seq::<Seq<char>>::empty() =~= spec_str_items(
                        prefix,
                    ));
                }
            },
        }
        i = i + 1;
    }
    proof {
        assert(items@.subrange(0, items.len() as int) =~= items@);
    }
    out
}

/// The baggage line: the first-checked-bag price from the `bags_price`
/// table under key `1` (with `0.00` where that entry is absent or not a
/// number), or the fixed not-available text where the table itself is
/// absent.
pub open spec fn spec_baggage_line(offer: Json, curr: Seq<char>) -> Seq<char> {
    match spec_field(offer, ("bags_price")@) {
        Some(bp) => ("First checked bag: ")@ + spec_money_field(bp, ("1")@) + (" ")@ + curr + (
        "\n")@,
        None => ("Baggage information not available\n")@,
    }
}

/// One leg's line of the route details.
pub open spec fn spec_leg_line(leg: Json, num: nat) -> Seq<char> {
    ("  Leg ")@ + spec_dec(num) + (": ")@ + spec_str_field_or(leg, ("cityFrom")@, ("Unknown")@) + (
    " → ")@ + spec_str_field_or(leg, ("cityTo")@, ("Unknown")@) + (" (")@ + spec_str_field_or(
        leg,
        ("airline")@,
        ("Unknown")@,
    ) + (")\n")@
}

/// The leg lines from index `i` on, each numbered from one.
pub open spec fn spec_leg_lines(legs: Seq<Json>, i: int) -> Seq<char>
    decreases legs.len() - i,
{
    if i < 0 || i >= legs.len() {
        Seq::empty()
    } else {
        spec_leg_line(legs[i], (i + 1) as nat) + spec_leg_lines(legs, i + 1)
    }
}

/// The route-details section: only an offer with stopovers has one.
pub open spec fn spec_route_details(offer: Json) -> Seq<char> {
    if spec_stops(offer) > 0 {
        match spec_field(offer, ("route")@) {
            Some(Json::Arr(v)) => ("Route details:\n")@ + spec_leg_lines(v@, 0),
            _ => Seq::empty(),
        }
    } else {
        Seq::empty()
    }
}

/// The block's first line: offer number, city names and location codes.
pub open spec fn spec_route_line(offer: Json, num: nat) -> Seq<char> {
    ("Flight ")@ + spec_dec(num) + (": ")@ + spec_str_field_or(offer, ("cityFrom")@, ("Unknown")@)
        + (" (")@ + spec_str_field_or(offer, ("flyFrom")@, ("???")@) + (") → ")@
        + spec_str_field_or(offer, ("cityTo")@, ("Unknown")@) + (" (")@ + spec_str_field_or(
        offer,
        ("flyTo")@,
        ("???")@,
    ) + (")\n")@
}

pub open spec fn spec_price_line(offer: Json, curr: Seq<char>) -> Seq<char> {
    ("Price: ")@ + spec_money_field(offer, ("price")@) + (" ")@ + curr + ("\n")@
}

pub open spec fn spec_departure_line(offer: Json) -> Seq<char> {
    ("Departure: ")@ + spec_timestamp_display(
        spec_str_field_or(offer, ("local_departure")@, ("Unknown")@),
    ) + ("\n")@
}

pub open spec fn spec_arrival_line(offer: Json) -> Seq<char> {
    ("Arrival: ")@ + spec_timestamp_display(
        spec_str_field_or(offer, ("local_arrival")@, ("Unknown")@),
    ) + ("\n")@
}

pub open spec fn spec_duration_line(offer: Json) -> Seq<char> {
    ("Duration: ")@ + spec_duration_text(spec_duration_minutes(offer) as int) + ("\n")@
}

pub open spec fn spec_airlines_line(offer: Json) -> Seq<char> {
    ("Airline(s): ")@ + spec_airlines_text(offer) + ("\n")@
}

pub open spec fn spec_stops_line(offer: Json) -> Seq<char> {
    ("Stops: ")@ + spec_stop_text(spec_stops(offer)) + ("\n")@
}

pub open spec fn spec_booking_line(offer: Json) -> Seq<char> {
    ("Booking link: ")@ + spec_str_field_or(offer, ("deep_link")@, ("Booking link not available")@)
        + ("\n")@
}

/// One offer's block: nine fixed-order lines, then the route details for an
/// offer with stopovers.
pub open spec fn spec_offer_block(offer: Json, num: nat, curr: Seq<char>) -> Seq<char> {
    spec_route_line(offer, num) + spec_price_line(offer, curr) + spec_departure_line(offer)
        + spec_arrival_line(offer) + spec_duration_line(offer) + spec_airlines_line(offer)
        + spec_stops_line(offer) + spec_baggage_line(offer, curr) + spec_booking_line(offer)
        + spec_route_details(offer)
}

fn push_leg_line(out: &mut String, leg: &Json, num: u64)
    ensures
        final(out)@ == old(out)@ + spec_leg_line(*leg, num as nat),
{
    let ghost start = out@;
    out.append("  Leg ");
    push_dec(out, num);
    out.append(": ");
    out.append(str_field_or(leg, "cityFrom", "Unknown"));
    out.append(" → ");
    out.append(str_field_or(leg, "cityTo", "Unknown"));
    out.append(" (");
    out.append(str_field_or(leg, "airline", "Unknown"));
    out.append(")\n");
    proof {
        assert(out@ =~= start + spec_leg_line(*leg, num as nat));
    }
}

fn push_route_line(out: &mut String, offer: &Json, num: u64)
    ensures
        final(out)@ == old(out)@ + spec_route_line(*offer, num as nat),
{
    let ghost start = out@;
    out.append("Flight ");
    push_dec(out, num);
    out.append(": ");
    out.append(str_field_or(offer, "cityFrom", "Unknown"));
    out.append(" (");
    out.append(str_field_or(offer, "flyFrom", "???"));
    out.append(") → ");
    out.append(str_field_or(offer, "cityTo", "Unknown"));
    out.append(" (");
    out.append(str_field_or(offer, "flyTo", "???"));
    out.append(")\n");
    proof {
        assert(out@ =~= start + spec_route_line(*offer, num as nat));
    }
}

fn push_price_line(out: &mut String, offer: &Json, currency: &str)
    ensures
        final(out)@ == old(out)@ + spec_price_line(*offer, currency@),
{
    let ghost start = out@;
    out.append("Price: ");
    let money = money_field(offer, "price");
    out.append(money.as_str());
    out.append(" ");
    out.append(currency);
    out.append("\n");
    proof {
        assert(out@ =~= start + spec_price_line(*offer, currency@));
    }
}

fn push_time_lines(out: &mut String, offer: &Json)
    ensures
        final(out)@ == old(out)@ + spec_departure_line(*offer) + spec_arrival_line(*offer),
{
    let ghost start = out@;
    let dep = timestamp_display(str_field_or(offer, "local_departure", "Unknown"));
    out.append("Departure: ");
    out.append(dep.as_str());
    out.append("\n");
    proof {
        assert(out@ =~= start + spec_departure_line(*offer));
    }
    let ghost mid = out@;
    let arr = timestamp_display(str_field_or(offer, "local_arrival", "Unknown"));
    out.append("Arrival: ");
    out.append(arr.as_str());
    out.append("\n");
    proof {
        assert(out@ =~= mid + spec_arrival_line(*offer));
        assert(out@ =~= start + spec_departure_line(*offer) + spec_arrival_line(*offer));
    }
}

fn push_duration_line(out: &mut String, offer: &Json)
    ensures
        final(out)@ == old(out)@ + spec_duration_line(*offer),
{
    let ghost start = out@;
    let dur = duration_text(duration_minutes(offer));
    out.append("Duration: ");
    out.append(dur.as_str());
    out.append("\n");
    proof {
        assert(out@ =~= start + spec_duration_line(*offer));
    }
}

fn push_airlines_line(out: &mut String, offer: &Json)
    ensures
        final(out)@ == old(out)@ + spec_airlines_line(*offer),
{
    let ghost start = out@;
    out.append("Airline(s): ");
    match json_field(offer, "airlines") {
        Some(Json::Arr(items)) => {
            let joined = join_str_items(items);
            out.append(joined.as_str());
        },
        _ => {
            out.append("Unknown");
        },
    }
    out.append("\n");
    proof {
        assert(out@ =~= start + spec_airlines_line(*offer));
    }
}

fn push_stops_line(out: &mut String, offer: &Json)
    ensures
        final(out)@ == old(out)@ + spec_stops_line(*offer),
{
    let ghost start = out@;
    let stops = stops_of(offer);
    let stop_desc = stop_text(stops as u64);
    out.append("Stops: ");
    out.append(stop_desc.as_str());
    out.append("\n");
    proof {
        assert(out@ =~= start + spec_stops_line(*offer));
    }
}

fn push_baggage_line(out: &mut String, offer: &Json, currency: &str)
    ensures
        final(out)@ == old(out)@ + spec_baggage_line(*offer, currency@),
{
    let ghost start = out@;
    match json_field(offer, "bags_price") {
        Some(bp) => {
            out.append("First checked bag: ");
            let bag = money_field(bp, "1");
            out.append(bag.as_str());
            out.append(" ");
            out.append(currency);
            out.append("\n");
        },
        None => {
            out.append("Baggage information not available\n");
        },
    }
    proof {
        assert(out@ =~= start + spec_baggage_line(*offer, currency@));
    }
}

fn push_booking_line(out: &mut String, offer: &Json)
    ensures
        final(out)@ == old(out)@ + spec_booking_line(*offer),
{
    let ghost start = out@;
    out.append("Booking link: ");
    out.append(str_field_or(offer, "deep_link", "Booking link not available"));
    out.append("\n");
    proof {
        assert(out@ =~= start + spec_booking_line(*offer));
    }
}

fn push_route_details(out: &mut String, offer: &Json)
    ensures
        final(out)@ == old(out)@ + spec_route_details(*offer),
{
    let ghost start = out@;
    let stops = stops_of(offer);
    if stops > 0 {
        match json_field(offer, "route") {
            Some(Json::Arr(legs)) => {
                out.append("Route details:\n");
                let ghost base = out@;
                let mut j: usize = 0;
                while j < legs.len()
                    invariant
                        j <= legs.len(),
                        base + spec_leg_lines(legs@, 0) == out@ + spec_leg_lines(legs@, j as int),
                    decreases legs.len() - j,
                {
                    let ghost before = out@;
                    let num: u64 = (j as u64) + 1;
                    push_leg_line(out, &legs[j], num);
                    proof {
                        assert(spec_leg_lines(legs@, j as int) == spec_leg_line(
                            legs@[j as int],
                            (j + 1) as nat,
                        ) + spec_leg_lines(legs@, j as int + 1));
                        assert(out@ + spec_leg_lines(legs@, j as int + 1) =~= before
                            + spec_leg_lines(legs@, j as int));
                    }
                    j = j + 1;
                }
                proof {
                    assert(spec_leg_lines(legs@, legs.len() as int) == Seq::<char>::empty());
                    assert(out@ =~= base + spec_leg_lines(legs@, 0));
                    assert(out@ =~= start + spec_route_details(*offer));
                }
            },
            _ => {
                proof {
                    assert(out@ =~= start + spec_route_details(*offer));
                }
            },
        }
    } else {
        proof {
            assert(out@ =~= start + spec_route_details(*offer));
        }
    }
}

fn push_offer_block(out: &mut String, offer: &Json, num: u64, currency: &str)
    ensures
        final(out)@ == old(out)@ + spec_offer_block(*offer, num as nat, currency@),
{
    let ghost start = out@;
    push_route_line(out, offer, num);
    push_price_line(out, offer, currency);
    push_time_lines(out, offer);
    push_duration_line(out, offer);
    push_airlines_line(out, offer);
    push_stops_line(out, offer);
    push_baggage_line(out, offer, currency);
    push_booking_line(out, offer);
    push_route_details(out, offer);
    proof {
        assert(out@ =~= start + spec_offer_block(*offer, num as nat, currency@));
    }
}

/// Renders one offer's block, numbered `num`.
pub fn format_offer(offer: &Json, num: u64, currency: &str) -> (r: String)
    ensures
        r@ == spec_offer_block(*offer, num as nat, currency@),
{
    let mut out = String::new();
    push_offer_block(&mut out, offer, num, currency);
    proof {
        assert(out@ =~= spec_offer_block(*offer, num as nat, currency@));
    }
    out
}

/// The offer blocks from index `i` on, numbered from `i + 1`, with the fixed
/// divider between consecutive blocks and none after the last.
pub open spec fn spec_offer_blocks(data: Seq<Json>, curr: Seq<char>, i: int) -> Seq<char>
    decreases data.len() - i,
{
    if i < 0 || i >= data.len() {
        Seq::empty()
    } else {
        spec_offer_block(data[i], (i + 1) as nat, curr) + (if i + 1 < data.len() {
            ("\n---\n\n")@
        } else {
            Seq::<char>::empty()
        }) + spec_offer_blocks(data, curr, i + 1)
    }
}

/// The formatter's whole output for a response document.
pub open spec fn spec_results_text(response: Json, curr: Seq<char>) -> Seq<char> {
    match spec_field(response, ("data")@) {
        Some(Json::Arr(v)) => if v@.len() == 0 {
            ("No flights found matching your criteria.")@
        } else {
            ("Found ")@ + spec_dec(v@.len()) + (" flights matching your criteria:\n\n")@
                + spec_offer_blocks(v@, curr, 0)
        },
        _ => (
        "Unable to retrieve flight information. The API response was in an unexpected format."
        )@,
    }
}

/// Formats a response document; never fails.
///
/// A response without an array under `data` yields the fixed diagnostic
/// line; an empty array the fixed no-results line; otherwise the header with
/// the count and the numbered offer blocks, divided between and only between
/// consecutive blocks.
pub fn format_flight_results(response: &Json, currency: &str) -> (r: String)
    ensures
        r@ == spec_results_text(*response, currency@),
{
    match json_field(response, "data") {
        Some(Json::Arr(data)) => {
            if data.len() == 0 {
                return String::from_str("No flights found matching your criteria.");
            }
            let mut out = String::new();
            out.append("Found ");
            push_dec(&mut out, data.len() as u64);
            out.append(" flights matching your criteria:\n\n");
            let ghost header = out@;
            let mut i: usize = 0;
            while i < data.len()
                invariant
                    i <= data.len(),
                    spec_field(*response, ("data")@) == Some(Json::Arr(*data)),
                    header + spec_offer_blocks(data@, currency@, 0) == out@ + spec_offer_blocks(
                        data@,
                        currency@,
                        i as int,
                    ),
                decreases data.len() - i,
            {
                let ghost before = out@;
                let num: u64 = (i as u64) + 1;
                push_offer_block(&mut out, &data[i], num, currency);
                if i + 1 < data.len() {
                    out.append("\n---\n\n");
                }
                proof {
                    assert(spec_offer_blocks(data@, currency@, i as int) == spec_offer_block(
                        data@[i as int],
                        (i + 1) as nat,
                        currency@,
                    ) + (if i + 1 < data@.len() {
                        ("\n---\n\n")@
                    } else {
                        Seq::<char>::empty()
                    }) + spec_offer_blocks(data@, currency@, i as int + 1));
                    assert(out@ + spec_offer_blocks(data@, currency@, i as int + 1) =~= before
                        + spec_offer_blocks(data@, currency@, i as int));
                }
                i = i + 1;
            }
            proof {
                assert(spec_offer_blocks(data@, currency@, data.len() as int)
                    == Seq::<char>::empty());
                assert(out@ =~= header + spec_offer_blocks(data@, currency@, 0));
            }
            out
        },
        _ => {
            String::from_str(
                "Unable to retrieve flight information. The API response was in an unexpected format.",
            )
        },
    }
}

/// An offer that lacks every display field still renders the complete block:
/// each line keeps its place and shows its documented placeholder, the
/// timestamp lines show the placeholder passed through the timestamp
/// display, and no route details follow.
pub proof fn lemma_placeholder_lines(offer: Json, num: nat, curr: Seq<char>)
    requires
        spec_field(offer, ("cityFrom")@) is None,
        spec_field(offer, ("flyFrom")@) is None,
        spec_field(offer, ("cityTo")@) is None,
        spec_field(offer, ("flyTo")@) is None,
        spec_field(offer, ("price")@) is None,
        spec_field(offer, ("local_departure")@) is None,
        spec_field(offer, ("local_arrival")@) is None,
        spec_field(offer, ("duration")@) is None,
        spec_field(offer, ("airlines")@) is None,
        spec_field(offer, ("route")@) is None,
        spec_field(offer, ("bags_price")@) is None,
        spec_field(offer, ("deep_link")@) is None,
    ensures
        spec_route_line(offer, num) == ("Flight ")@ + spec_dec(num) + (
        ": Unknown (???) → Unknown (???)\n")@,
        spec_price_line(offer, curr) == ("Price: 0.00 ")@ + curr + ("\n")@,
        spec_departure_line(offer) == ("Departure: ")@ + spec_timestamp_display(("Unknown")@) + (
        "\n")@,
        spec_arrival_line(offer) == ("Arrival: ")@ + spec_timestamp_display(("Unknown")@) + ("\n")@,
        spec_duration_line(offer) == ("Duration: 0h 0m\n")@,
        spec_airlines_line(offer) == ("Airline(s): Unknown\n")@,
        spec_stops_line(offer) == ("Stops: Direct flight\n")@,
        spec_baggage_line(offer, curr) == ("Baggage information not available\n")@,
        spec_booking_line(offer) == ("Booking link: Booking link not available\n")@,
        spec_route_details(offer) == Seq::<char>::empty(),
{
    reveal_strlit(": ");
    reveal_strlit("Unknown");
    reveal_strlit(" (");
    reveal_strlit("???");
    reveal_strlit(") → ");
    reveal_strlit(")\n");
    reveal_strlit(": Unknown (???) → Unknown (???)\n");
    assert((": ")@ + ("Unknown")@ + (" (")@ + ("???")@ + (") → ")@ + ("Unknown")@ + (" (")@ + (
    "???")@ + (")\n")@ =~= (": Unknown (???) → Unknown (???)\n")@);
    assert(spec_route_line(offer, num) =~= ("Flight ")@ + spec_dec(num) + (
    ": Unknown (???) → Unknown (???)\n")@);
    reveal_strlit("Price: ");
    reveal_strlit("0.00");
    reveal_strlit(" ");
    reveal_strlit("\n");
    reveal_strlit("Price: 0.00 ");
    assert(("Price: ")@ + ("0.00")@ + (" ")@ =~= ("Price: 0.00 ")@);
    assert(spec_price_line(offer, curr) =~= ("Price: 0.00 ")@ + curr + ("\n")@);
    reveal_strlit("Duration: ");
    reveal_strlit("h ");
    reveal_strlit("m");
    reveal_strlit("0");
    reveal_strlit("Duration: 0h 0m\n");
    assert(spec_duration_minutes(offer) == 0);
    assert(spec_dec(0) =~= seq!['0']);
    assert(spec_duration_line(offer) =~= ("Duration: 0h 0m\n")@);
    reveal_strlit("Airline(s): ");
    reveal_strlit("Airline(s): Unknown\n");
    assert(spec_airlines_line(offer) =~= ("Airline(s): Unknown\n")@);
    reveal_strlit("Stops: ");
    reveal_strlit("Direct flight");
    reveal_strlit("Stops: Direct flight\n");
    assert(spec_stops(offer) == 0);
    assert(spec_stops_line(offer) =~= ("Stops: Direct flight\n")@);
    reveal_strlit("Booking link: ");
    reveal_strlit("Booking link not available");
    reveal_strlit("Booking link: Booking link not available\n");
    assert(spec_booking_line(offer) =~= ("Booking link: Booking link not available\n")@);
}

/// An offer with a non-empty route array has one stopover less than it has
/// legs.
pub proof fn lemma_stopover_count(offer: Json, legs: Vec<Json>)
    requires
        spec_field(offer, ("route")@) == Some(Json::Arr(legs)),
        legs@.len() > 0,
    ensures
        spec_stops(offer) == legs@.len() - 1,
{
}

/// The three forms of the stopover description, one for each count.
pub proof fn lemma_stop_text_forms(n: int)
    requires
        n >= 0,
    ensures
        n == 0 ==> spec_stop_text(n) == ("Direct flight")@,
        n == 1 ==> spec_stop_text(n) == ("1 stopover")@,
        n > 1 ==> spec_stop_text(n) == spec_dec(n as nat) + (" stopovers")@,
{
}

/// The divider stands between consecutive offer blocks and never after the
/// last one, shown here for one, two and three offers.
#[verifier::rlimit(50)]
#[verifier::spinoff_prover]
pub proof fn lemma_dividers(data: Seq<Json>, curr: Seq<char>)
    ensures
        data.len() == 1 ==> spec_offer_blocks(data, curr, 0) == spec_offer_block(data[0], 1, curr),
        data.len() == 2 ==> spec_offer_blocks(data, curr, 0) == spec_offer_block(data[0], 1, curr)
            + ("\n---\n\n")@ + spec_offer_block(data[1], 2, curr),
        data.len() == 3 ==> spec_offer_blocks(data, curr, 0) == spec_offer_block(data[0], 1, curr)
            + ("\n---\n\n")@ + spec_offer_block(data[1], 2, curr) + ("\n---\n\n")@
            + spec_offer_block(data[2], 3, curr),
{
    if data.len() == 1 {
        assert(spec_offer_blocks(data, curr, 1) == Seq::<char>::empty());
        assert(spec_offer_blocks(data, curr, 0) =~= spec_offer_block(data[0], 1, curr));
    } else if data.len() == 2 {
        assert(spec_offer_blocks(data, curr, 2) == Seq::<char>::empty());
        assert(spec_offer_blocks(data, curr, 1) =~= spec_offer_block(data[1], 2, curr));
        assert(spec_offer_blocks(data, curr, 0) =~= spec_offer_block(data[0], 1, curr) + (
        "\n---\n\n")@ + spec_offer_block(data[1], 2, curr));
    } else if data.len() == 3 {
        assert(spec_offer_blocks(data, curr, 3) == Seq::<char>::empty());
        assert(spec_offer_blocks(data, curr, 2) =~= spec_offer_block(data[2], 3, curr));
        assert(spec_offer_blocks(data, curr, 1) =~= spec_offer_block(data[1], 2, curr) + (
        "\n---\n\n")@ + spec_offer_block(data[2], 3, curr));
        assert(spec_offer_blocks(data, curr, 0) =~= spec_offer_block(data[0], 1, curr) + (
        "\n---\n\n")@ + spec_offer_block(data[1], 2, curr) + ("\n---\n\n")@ + spec_offer_block(
            data[2],
            3,
            curr,
        ));
    }
}

} // verus!
