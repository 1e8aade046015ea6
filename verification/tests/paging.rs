use aurora::error::Error;
use aurora::horizon::Paging;
use aurora::horizon::add_paging_options;
use aurora::request::Descriptor;
use aurora::request::Endpoint;
use aurora::request::Order;

#[test]
fn default_paging_is_identity() {
    let d = Descriptor::new(Endpoint::Ledgers);
    let expected = Descriptor::new(Endpoint::Ledgers);
    let applied = add_paging_options(d, &Paging::default());
    assert_eq!(applied, expected);
}

#[test]
fn default_paging_keeps_existing_fields() {
    let d = Descriptor {
        endpoint: Endpoint::Trades,
        cursor: Some("now".to_string()),
        limit: Some(7),
        order: Order::Descending,
    };
    let expected = Descriptor {
        endpoint: Endpoint::Trades,
        cursor: Some("now".to_string()),
        limit: Some(7),
        order: Order::Descending,
    };
    let applied = add_paging_options(d, &Paging::default());
    assert_eq!(applied, expected);
}

#[test]
fn paging_attaches_every_option() {
    let d = Descriptor::new(Endpoint::Effects);
    let paging = Paging {
        cursor: Some("abc".to_string()),
        limit: Some(10),
        ascending: true,
        descending: false,
    };
    let applied = add_paging_options(d, &paging);
    assert_eq!(
        applied,
        Descriptor {
            endpoint: Endpoint::Effects,
            cursor: Some("abc".to_string()),
            limit: Some(10),
            order: Order::Ascending,
        }
    );
}

#[test]
fn descending_flag_sets_descending() {
    let d = Descriptor::new(Endpoint::Ledgers);
    let paging = Paging { cursor: None, limit: None, ascending: false, descending: true };
    let applied = add_paging_options(d, &paging);
    assert_eq!(applied.order, Order::Descending);
    assert_eq!(applied.cursor, None);
    assert_eq!(applied.limit, None);
}

#[test]
fn conflicting_order_flags_fail_validation() {
    let r = Paging::from_flags(None, None, true, true);
    assert!(matches!(r, Err(Error::Validation(_))));
}

#[test]
fn consistent_flags_build_paging() {
    let r = Paging::from_flags(Some("tok".to_string()), Some(5), false, true);
    let p = r.unwrap();
    assert_eq!(p.cursor, Some("tok".to_string()));
    assert_eq!(p.limit, Some(5));
    assert!(!p.ascending);
    assert!(p.descending);
}
