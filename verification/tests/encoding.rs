use polymarket_client::client::api::clob::{clob_url, gamma_url, polymarket_api_url};
use polymarket_client::encoding::BaseUrl;

#[test]
fn paths_behind_a_host() {
    assert_eq!(clob_url().join("data/orders"), "https://clob.polymarket.com/data/orders");
    assert_eq!(clob_url().join("data/trades/"), "https://clob.polymarket.com/data/trades/");
    assert_eq!(clob_url().join("/data/order/0x1"), "https://clob.polymarket.com/data/order/0x1");
    assert_eq!(gamma_url().join("markets/12"), "https://gamma-api.polymarket.com/markets/12");
}

#[test]
fn paths_behind_a_directory() {
    assert_eq!(
        polymarket_api_url().join("rewards/markets"),
        "https://polymarket.com/api/rewards/markets"
    );
    assert_eq!(polymarket_api_url().join("/book"), "https://polymarket.com/book");
    let base = BaseUrl { host: "a.b-c.d", dir: "/x/Y_z/" };
    assert_eq!(base.join("e-1/F"), "https://a.b-c.d/x/Y_z/e-1/F");
}
