use energipriser::request::{bearer, headers, ENDPOINT, JSON_MEDIA_TYPE, PRICE_QUERY, QUERY_KEY};

const QUERY: &str = "{
  viewer {
    homes {
      currentSubscription{
        priceInfo{
          current{
            total
            energy
            tax
            startsAt
          }
          today {
            total
            energy
            tax
            startsAt
          }
          tomorrow {
            total
            energy
            tax
            startsAt
          }
        }
      }
    }
  }
}
";

#[test]
fn bearer_puts_the_scheme_before_the_token() {
    assert_eq!(bearer("abc123"), "Bearer abc123");
    assert_eq!(bearer(""), "Bearer ");
}

#[test]
fn headers_are_authorization_content_type_accept() {
    let list = headers("tok");
    let pairs: Vec<(String, String)> =
        list.iter().map(|h| (h.name.clone(), h.value.clone())).collect();
    assert_eq!(
        pairs,
        vec![
            ("authorization".to_string(), "Bearer tok".to_string()),
            ("content-type".to_string(), "application/json".to_string()),
            ("accept".to_string(), "application/json".to_string()),
        ]
    );
}

#[test]
fn endpoint_and_body_key() {
    assert_eq!(ENDPOINT, "https://api.tibber.com/v1-beta/gql");
    assert_eq!(QUERY_KEY, "query");
    assert_eq!(JSON_MEDIA_TYPE, "application/json");
}

#[test]
fn query_asks_for_the_three_series() {
    assert_eq!(PRICE_QUERY, QUERY);
    assert!(PRICE_QUERY.starts_with("{\n  viewer {\n    homes {\n"));
    assert!(PRICE_QUERY.ends_with("}\n"));
    assert_eq!(PRICE_QUERY.matches("startsAt").count(), 3);
    assert_eq!(PRICE_QUERY.matches("total").count(), 3);
    assert_eq!(PRICE_QUERY.matches("energy").count(), 3);
}
