//! What is sent to the provider: where, with which headers, and the query.

use vstd::prelude::*;

verus! {

/// Where the provider answers queries.
pub const ENDPOINT: &'static str = "https://api.tibber.com/v1-beta/gql";

/// The member of the request's body that holds the query.
pub const QUERY_KEY: &'static str = "query";

/// The media type of the request's body and of the answer asked for.
pub const JSON_MEDIA_TYPE: &'static str = "application/json";

/// The query: for every home of the account, the price of the hour that runs
/// and the hours of today and of tomorrow.
pub const PRICE_QUERY: &'static str = "{
  viewer {
    homes {
      currentSubscription{
        priceInfo{
          current{
            total
            energy
            tax
            startsAt
          }
          today {
            total
            energy
            tax
            startsAt
          }
          tomorrow {
            total
            energy
            tax
            startsAt
          }
        }
      }
    }
  }
}
";

/// A header of the request.
#[derive(Debug)]
pub struct Header {
    pub name: String,
    pub value: String,
}

/// The value of the header that presents `token`.
pub open spec fn bearer_of(token: Seq<char>) -> Seq<char> {
    "Bearer "@ + token
}

/// The names and values of the headers of a request made with `token`.
pub open spec fn headers_of(token: Seq<char>) -> Seq<(Seq<char>, Seq<char>)> {
    seq![
        ("authorization"@, bearer_of(token)),
        ("content-type"@, JSON_MEDIA_TYPE@),
        ("accept"@, JSON_MEDIA_TYPE@),
    ]
}

/// The value of the header that presents `token`.
pub fn bearer(token: &str) -> (value: String)
    ensures
        value@ == bearer_of(token@),
{
    let mut value: String = "Bearer ".to_owned();
    value.append(token);
    value
}

/// The headers of a request made with `token`, in the order they are set.
pub fn headers(token: &str) -> (list: Vec<Header>)
    ensures
        list@.len() == headers_of(token@).len(),
        forall|i: int|
            0 <= i < list@.len() ==> (#[trigger] list@[i].name@, list@[i].value@) == headers_of(
                token@,
            )[i],
{
    let mut list: Vec<Header> = Vec::new();
    list.push(Header { name: "authorization".to_owned(), value: bearer(token) });
    list.push(Header { name: "content-type".to_owned(), value: JSON_MEDIA_TYPE.to_owned() });
    list.push(Header { name: "accept".to_owned(), value: JSON_MEDIA_TYPE.to_owned() });
    list
}

/// The token is the end of the header that presents it, after the scheme.
pub proof fn lemma_bearer_ends_with_token(token: Seq<char>)
    ensures
        bearer_of(token).len() == "Bearer "@.len() + token.len(),
        bearer_of(token).subrange("Bearer "@.len() as int, bearer_of(token).len() as int) == token,
        bearer_of(token).subrange(0, "Bearer "@.len() as int) == "Bearer "@,
{
    let scheme = "Bearer "@;
    assert(bearer_of(token).subrange(scheme.len() as int, bearer_of(token).len() as int) =~= token);
    assert(bearer_of(token).subrange(0, scheme.len() as int) =~= scheme);
}

} // verus!
