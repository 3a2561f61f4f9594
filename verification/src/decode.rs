//! From the body of an answer to the prices it reports.
//!
//! An answer is a JSON object `data` / `viewer` / `homes`; each home holds
//! `currentSubscription` / `priceInfo`, and that the price of the hour that
//! runs (`current`) and the hours of `today` and `tomorrow`. An hour is an
//! object with the numbers `total` and `energy` and the string `startsAt`.
//! Other members are passed over, and of a member written twice the last
//! counts. Either all of it is there, or the body yields nothing.

use crate::json::{json_items, json_member, json_number, json_parsed, json_text};
use crate::model::{ApiResponse, Data, Home, Price, PriceInfo, PriceViewer, Subscription};
use crate::view::Day;
use serde_json::{Number, Value};
use vstd::prelude::*;

verus! {

/// Prices as they are decoded: amounts are JSON numbers.
pub type Prices = ApiResponse<PriceViewer<Number>>;

/// Why a body yields no prices.
#[derive(Clone, Copy, Debug, PartialEq, Eq, Structural)]
pub enum DecodeFailure {
    /// The body is not JSON.
    Syntax,
    /// The body is JSON of another shape.
    Shape,
}

/// The number that is member `key` of `value`.
pub open spec fn number_at(value: Value, key: Seq<char>) -> Option<Number> {
    match json_member(value, key) {
        Some(inner) => json_number(inner),
        None => None,
    }
}

/// The string that is member `key` of `value`.
pub open spec fn text_at(value: Value, key: Seq<char>) -> Option<Seq<char>> {
    match json_member(value, key) {
        Some(inner) => json_text(inner),
        None => None,
    }
}

/// Whether `value` has what an hour's price needs.
pub open spec fn price_shaped(value: Value) -> bool {
    &&& number_at(value, "total"@) is Some
    &&& number_at(value, "energy"@) is Some
    &&& text_at(value, "startsAt"@) is Some
}

/// Whether `price` is the hour's price that `value` holds.
pub open spec fn price_holds(value: Value, price: Price<Number>) -> bool {
    &&& number_at(value, "total"@) == Some(price.total)
    &&& number_at(value, "energy"@) == Some(price.energy)
    &&& text_at(value, "startsAt"@) == Some(price.starts_at@)
}

/// Whether `value` is an array of hours.
pub open spec fn series_shaped(value: Value) -> bool {
    json_items(value) matches Some(list) && forall|i: int|
        0 <= i < list.len() ==> price_shaped(#[trigger] list[i])
}

/// Whether `series` is the array of hours that `value` holds, in its order.
pub open spec fn series_holds(value: Value, series: Seq<Price<Number>>) -> bool {
    json_items(value) matches Some(list) && list.len() == series.len() && forall|i: int|
        #![trigger list[i]]
        #![trigger series[i]]
        0 <= i < list.len() ==> price_holds(list[i], series[i])
}

/// Whether `value` has what the prices of a home need.
pub open spec fn info_shaped(value: Value) -> bool {
    &&& json_member(value, "current"@) matches Some(current) && price_shaped(current)
    &&& json_member(value, "today"@) matches Some(today) && series_shaped(today)
    &&& json_member(value, "tomorrow"@) matches Some(tomorrow) && series_shaped(tomorrow)
}

/// Whether `info` is the prices of a home that `value` holds.
pub open spec fn info_holds(value: Value, info: PriceInfo<Number>) -> bool {
    &&& json_member(value, "current"@) matches Some(current) && price_holds(current, info.current)
    &&& json_member(value, "today"@) matches Some(today) && series_holds(today, info.today@)
    &&& json_member(value, "tomorrow"@) matches Some(tomorrow) && series_holds(
        tomorrow,
        info.tomorrow@,
    )
}

/// The prices inside a home: member `priceInfo` of member `currentSubscription`.
pub open spec fn info_of_home(value: Value) -> Option<Value> {
    match json_member(value, "currentSubscription"@) {
        Some(subscription) => json_member(subscription, "priceInfo"@),
        None => None,
    }
}

/// Whether `value` has what a home needs.
pub open spec fn home_shaped(value: Value) -> bool {
    info_of_home(value) matches Some(info) && info_shaped(info)
}

/// Whether `home` is the home that `value` holds.
pub open spec fn home_holds(value: Value, home: Home<Number>) -> bool {
    info_of_home(value) matches Some(info) && info_holds(
        info,
        home.current_subscription.price_info,
    )
}

/// The homes inside an answer: the items of member `homes` of member `viewer`
/// of member `data`.
pub open spec fn homes_of(value: Value) -> Option<Seq<Value>> {
    match json_member(value, "data"@) {
        Some(data) => match json_member(data, "viewer"@) {
            Some(viewer) => match json_member(viewer, "homes"@) {
                Some(homes) => json_items(homes),
                None => None,
            },
            None => None,
        },
        None => None,
    }
}

/// Whether `value` has what an answer needs.
pub open spec fn response_shaped(value: Value) -> bool {
    homes_of(value) matches Some(list) && forall|i: int|
        0 <= i < list.len() ==> home_shaped(#[trigger] list[i])
}

/// Whether `prices` is the answer that `value` holds: as many homes, in the
/// same order, each with its prices.
pub open spec fn response_holds(value: Value, prices: Prices) -> bool {
    homes_of(value) matches Some(list) && list.len() == prices.data.viewer.homes@.len()
        && forall|i: int|
        #![trigger list[i]]
        #![trigger prices.data.viewer.homes@[i]]
        0 <= i < list.len() ==> home_holds(list[i], prices.data.viewer.homes@[i])
}

/// What decoding the body `text` comes to.
pub open spec fn decodes_to(text: Seq<char>, decoded: Result<Prices, DecodeFailure>) -> bool {
    match decoded {
        Ok(prices) => json_parsed(text) matches Some(value) && response_shaped(value)
            && response_holds(value, prices),
        Err(DecodeFailure::Syntax) => json_parsed(text) is None,
        Err(DecodeFailure::Shape) => json_parsed(text) matches Some(value) && !response_shaped(
            value,
        ),
    }
}

/// The number that is member `key` of `value`, if there is one.
fn number_member(value: &Value, key: &str) -> (found: Option<Number>)
    ensures
        found == number_at(*value, key@),
{
    match crate::json::member(value, key) {
        Some(inner) => crate::json::number(inner),
        None => None,
    }
}

/// The string that is member `key` of `value`, if there is one.
fn text_member(value: &Value, key: &str) -> (found: Option<String>)
    ensures
        found is Some == text_at(*value, key@) is Some,
        found matches Some(inner) ==> text_at(*value, key@) == Some(inner@),
{
    match crate::json::member(value, key) {
        Some(inner) => match crate::json::text(inner) {
            Some(slice) => Some(slice.to_owned()),
            None => None,
        },
        None => None,
    }
}

/// The price of an hour out of `value`, if `value` has its shape.
pub fn decode_price(value: &Value) -> (found: Option<Price<Number>>)
    ensures
        found is Some == price_shaped(*value),
        found matches Some(price) ==> price_holds(*value, price),
{
    let total = number_member(value, "total");
    let energy = number_member(value, "energy");
    let starts_at = text_member(value, "startsAt");
    match (total, energy, starts_at) {
        (Some(total), Some(energy), Some(starts_at)) => Some(Price { total, energy, starts_at }),
        _ => None,
    }
}

/// The hours out of `value`, if `value` is an array and every item an hour.
pub fn decode_series(value: &Value) -> (found: Option<Vec<Price<Number>>>)
    ensures
        found is Some == series_shaped(*value),
        found matches Some(series) ==> series_holds(*value, series@),
{
    let list = match crate::json::items(value) {
        Some(list) => list,
        None => { return None; },
    };
    let mut series: Vec<Price<Number>> = Vec::new();
    let mut i: usize = 0;
    while i < list.len()
        invariant
            i <= list.len(),
            json_items(*value) == Some(list@),
            series@.len() == i,
            forall|j: int| 0 <= j < i ==> price_shaped(#[trigger] list@[j]),
            forall|j: int|
                #![trigger list@[j]]
                #![trigger series@[j]]
                0 <= j < i ==> price_holds(list@[j], series@[j]),
        decreases list.len() - i,
    {
        match decode_price(&list[i]) {
            Some(price) => {
                series.push(price);
            },
            None => {
                assert(!price_shaped(json_items(*value).unwrap()[i as int]));
                return None;
            },
        }
        i = i + 1;
    }
    Some(series)
}

/// The prices of a home out of `value`, if `value` has their shape.
pub fn decode_price_info(value: &Value) -> (found: Option<PriceInfo<Number>>)
    ensures
        found is Some == info_shaped(*value),
        found matches Some(info) ==> info_holds(*value, info),
{
    let current = match crate::json::member(value, "current") {
        Some(inner) => decode_price(inner),
        None => None,
    };
    let today = match crate::json::member(value, "today") {
        Some(inner) => decode_series(inner),
        None => None,
    };
    let tomorrow = match crate::json::member(value, "tomorrow") {
        Some(inner) => decode_series(inner),
        None => None,
    };
    match (current, today, tomorrow) {
        (Some(current), Some(today), Some(tomorrow)) => Some(PriceInfo { current, today, tomorrow }),
        _ => None,
    }
}

/// A home out of `value`, if `value` has its shape.
pub fn decode_home(value: &Value) -> (found: Option<Home<Number>>)
    ensures
        found is Some == home_shaped(*value),
        found matches Some(home) ==> home_holds(*value, home),
{
    let subscription = match crate::json::member(value, "currentSubscription") {
        Some(inner) => inner,
        None => { return None; },
    };
    let info = match crate::json::member(subscription, "priceInfo") {
        Some(inner) => inner,
        None => { return None; },
    };
    match decode_price_info(info) {
        Some(price_info) => Some(Home { current_subscription: Subscription { price_info } }),
        None => None,
    }
}

/// The array of homes inside an answer.
fn homes_member(value: &Value) -> (found: Option<&Vec<Value>>)
    ensures
        found is Some == homes_of(*value) is Some,
        found matches Some(list) ==> homes_of(*value) == Some(list@),
{
    let data = match crate::json::member(value, "data") {
        Some(inner) => inner,
        None => { return None; },
    };
    let viewer = match crate::json::member(data, "viewer") {
        Some(inner) => inner,
        None => { return None; },
    };
    let homes = match crate::json::member(viewer, "homes") {
        Some(inner) => inner,
        None => { return None; },
    };
    crate::json::items(homes)
}

/// An answer out of a parsed body, if the body has the shape of one.
pub fn decode_response(value: &Value) -> (found: Option<Prices>)
    ensures
        found is Some == response_shaped(*value),
        found matches Some(prices) ==> response_holds(*value, prices),
{
    let list = match homes_member(value) {
        Some(list) => list,
        None => { return None; },
    };
    let mut homes: Vec<Home<Number>> = Vec::new();
    let mut i: usize = 0;
    while i < list.len()
        invariant
            i <= list.len(),
            homes_of(*value) == Some(list@),
            homes@.len() == i,
            forall|j: int| 0 <= j < i ==> home_shaped(#[trigger] list@[j]),
            forall|j: int|
                #![trigger list@[j]]
                #![trigger homes@[j]]
                0 <= j < i ==> home_holds(list@[j], homes@[j]),
        decreases list.len() - i,
    {
        match decode_home(&list[i]) {
            Some(home) => {
                homes.push(home);
            },
            None => {
                assert(!home_shaped(homes_of(*value).unwrap()[i as int]));
                return None;
            },
        }
        i = i + 1;
    }
    Some(ApiResponse { data: Data { viewer: PriceViewer { homes } } })
}

/// Decodes the body of an answer. The body yields prices exactly when it is
/// JSON of the expected shape, and then every amount and every timestamp is
/// the one that the body holds in that place.
pub fn decode(text: &str) -> (decoded: Result<Prices, DecodeFailure>)
    ensures
        decodes_to(text@, decoded),
{
    match crate::json::parse(text) {
        Ok(value) => match decode_response(&value) {
            Some(prices) => Ok(prices),
            None => Err(DecodeFailure::Shape),
        },
        Err(_) => Err(DecodeFailure::Syntax),
    }
}

/// The member of a home's prices that holds the hours of `day`.
pub open spec fn series_key(day: Day) -> Seq<char> {
    match day {
        Day::Today => "today"@,
        Day::Tomorrow => "tomorrow"@,
    }
}

/// The place in an answer where the prices of home `home` stand.
pub open spec fn info_place(value: Value, home: int) -> Option<Value> {
    match homes_of(value) {
        Some(list) => if 0 <= home < list.len() {
            info_of_home(list[home])
        } else {
            None
        },
        None => None,
    }
}

/// The place in an answer where the price of the hour that runs stands for
/// home `home`.
pub open spec fn current_place(value: Value, home: int) -> Option<Value> {
    match info_place(value, home) {
        Some(info) => json_member(info, "current"@),
        None => None,
    }
}

/// The places in an answer where the hours of `day` stand for home `home`.
pub open spec fn hour_places(value: Value, home: int, day: Day) -> Option<Seq<Value>> {
    match info_place(value, home) {
        Some(info) => match json_member(info, series_key(day)) {
            Some(series) => json_items(series),
            None => None,
        },
        None => None,
    }
}

/// Whether `value` lacks one of the three members of an hour's price.
pub open spec fn lacks_member(value: Value) -> bool {
    ||| json_member(value, "total"@) is None
    ||| json_member(value, "energy"@) is None
    ||| json_member(value, "startsAt"@) is None
}

/// A body without the list of homes yields nothing.
pub proof fn lemma_missing_homes_yield_nothing(
    text: Seq<char>,
    decoded: Result<Prices, DecodeFailure>,
    value: Value,
)
    requires
        decodes_to(text, decoded),
        json_parsed(text) == Some(value),
        homes_of(value) is None,
    ensures
        decoded == Err::<Prices, DecodeFailure>(DecodeFailure::Shape),
{
}

/// A body that lacks a member of the hour that runs yields nothing, whatever
/// else it holds.
pub proof fn lemma_missing_field_of_current(
    text: Seq<char>,
    decoded: Result<Prices, DecodeFailure>,
    value: Value,
    home: int,
    place: Value,
)
    requires
        decodes_to(text, decoded),
        json_parsed(text) == Some(value),
        current_place(value, home) == Some(place),
        lacks_member(place),
    ensures
        decoded == Err::<Prices, DecodeFailure>(DecodeFailure::Shape),
{
    let list = homes_of(value).unwrap();
    assert(!price_shaped(place));
    assert(!home_shaped(list[home]));
}

/// A body that lacks a member of one hour of a day yields nothing, whatever
/// else it holds.
pub proof fn lemma_missing_field_of_hour(
    text: Seq<char>,
    decoded: Result<Prices, DecodeFailure>,
    value: Value,
    home: int,
    day: Day,
    hour: int,
    places: Seq<Value>,
)
    requires
        decodes_to(text, decoded),
        json_parsed(text) == Some(value),
        hour_places(value, home, day) == Some(places),
        0 <= hour < places.len(),
        lacks_member(places[hour]),
    ensures
        decoded == Err::<Prices, DecodeFailure>(DecodeFailure::Shape),
{
    let list = homes_of(value).unwrap();
    let info = info_of_home(list[home]).unwrap();
    let series = json_member(info, series_key(day)).unwrap();
    assert(!price_shaped(places[hour]));
    assert(!series_shaped(series));
    assert(!info_shaped(info));
    assert(!home_shaped(list[home]));
}

/// What is decoded is what the body holds. There are as many homes as the
/// body lists; for each, the hour that runs is the one written in its place,
/// and each day has as many hours as the body lists for it, in the same
/// order, each with the total, the energy price and the start written there.
pub proof fn lemma_decoded_is_faithful(text: Seq<char>, prices: Prices, home: int, day: Day)
    requires
        decodes_to(text, Ok(prices)),
        0 <= home < prices.data.viewer.homes@.len(),
    ensures
        json_parsed(text) matches Some(value) && ({
            let info = prices.data.viewer.homes@[home].current_subscription.price_info;
            &&& homes_of(value) matches Some(list) && list.len()
                == prices.data.viewer.homes@.len()
            &&& current_place(value, home) matches Some(place) && price_holds(place, info.current)
            &&& hour_places(value, home, day) matches Some(places) && places.len()
                == info.series_of(day)@.len() && forall|hour: int|
                0 <= hour < places.len() ==> price_holds(
                    #[trigger] places[hour],
                    info.series_of(day)@[hour],
                )
        }),
{
    let value = json_parsed(text).unwrap();
    let list = homes_of(value).unwrap();
    assert(home_holds(list[home], prices.data.viewer.homes@[home]));
    let got = prices.data.viewer.homes@[home].current_subscription.price_info;
    let info = info_of_home(list[home]).unwrap();
    assert(info_holds(info, got));
    let series = json_member(info, series_key(day)).unwrap();
    assert(series_holds(series, got.series_of(day)@));
}

/// An hour's price is pinned down by the place it was decoded from: two
/// prices that a value holds have the same total, energy price and start.
pub proof fn lemma_price_is_determined(value: Value, first: Price<Number>, second: Price<Number>)
    requires
        price_holds(value, first),
        price_holds(value, second),
    ensures
        first.total == second.total,
        first.energy == second.energy,
        first.starts_at@ == second.starts_at@,
{
}

} // verus!
