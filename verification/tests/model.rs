use energipriser::model::{
    totals, ApiResponse, Data, Home, Price, PriceInfo, PriceViewer, Subscription,
};
use energipriser::view::Day;

fn price(total: f64, starts_at: &str) -> Price<f64> {
    Price { total, energy: total / 2.0, starts_at: starts_at.to_string() }
}

fn info() -> PriceInfo<f64> {
    PriceInfo {
        current: price(2.0, "b"),
        today: vec![price(1.0, "a"), price(2.0, "b"), price(3.0, "c")],
        tomorrow: vec![price(4.0, "d")],
    }
}

#[test]
fn series_picks_the_day() {
    let info = info();
    let today: Vec<&str> = info.series(Day::Today).iter().map(|p| p.starts_at.as_str()).collect();
    assert_eq!(today, vec!["a", "b", "c"]);
    let tomorrow: Vec<&str> =
        info.series(Day::Tomorrow).iter().map(|p| p.starts_at.as_str()).collect();
    assert_eq!(tomorrow, vec!["d"]);
}

#[test]
fn totals_are_the_totals_in_order() {
    let info = info();
    assert_eq!(totals(&info.today), vec![&1.0, &2.0, &3.0]);
    assert_eq!(totals(&info.tomorrow), vec![&4.0]);
    let none: Vec<Price<f64>> = Vec::new();
    assert!(totals(&none).is_empty());
}

#[test]
fn first_price_info_is_that_of_the_first_home() {
    let second = PriceInfo { current: price(9.0, "z"), today: vec![], tomorrow: vec![] };
    let response = ApiResponse {
        data: Data {
            viewer: PriceViewer {
                homes: vec![
                    Home { current_subscription: Subscription { price_info: info() } },
                    Home { current_subscription: Subscription { price_info: second } },
                ],
            },
        },
    };
    let found = response.first_price_info().expect("a home");
    assert_eq!(found.current.total, 2.0);
    assert_eq!(found.today.len(), 3);
}

#[test]
fn first_price_info_of_no_home_is_nothing() {
    let response: ApiResponse<PriceViewer<f64>> =
        ApiResponse { data: Data { viewer: PriceViewer { homes: vec![] } } };
    assert!(response.first_price_info().is_none());
}
