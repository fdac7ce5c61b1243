use coldstack::types::Error;
use coldstack::types::Event;
use coldstack::types::Gateway;
use coldstack::types::Principal;
use coldstack::GenesisConfig;
use coldstack::Pallet;

fn addr(b: u8) -> Vec<u8> {
    vec![b; 20]
}

fn url(b: u8) -> Vec<u8> {
    vec![b; 7]
}

const ADMIN: Principal = Principal { id: 1 };

fn fresh() -> Pallet {
    let genesis = GenesisConfig { key: ADMIN, total_issuance: 1000 };
    genesis.build()
}

#[test]
fn register_gateway_stores_record_and_url() {
    let mut p = fresh();
    let r = p.register_gateway_node(ADMIN, addr(60), None, 2, url(1));
    assert_eq!(
        r,
        Ok(Event::GatewayNodeRegistered(addr(60), None, 2, url(1)))
    );
    let expected = Gateway { address: addr(60), seed_address: None, storage: 2 };
    assert_eq!(p.gateway_of(&addr(60)), Some(&expected));
    assert_eq!(p.node_url_of(&addr(60)), Some(&url(1)));
}

#[test]
fn register_gateway_with_seed_keeps_the_link() {
    let mut p = fresh();
    let r = p.register_gateway_node(ADMIN, addr(61), Some(addr(60)), 0, url(2));
    assert_eq!(
        r,
        Ok(Event::GatewayNodeRegistered(addr(61), Some(addr(60)), 0, url(2)))
    );
    let expected = Gateway { address: addr(61), seed_address: Some(addr(60)), storage: 0 };
    assert_eq!(p.gateway_of(&addr(61)), Some(&expected));
}

#[test]
fn register_gateway_accepts_unknown_seed() {
    let mut p = fresh();
    let r = p.register_gateway_node(ADMIN, addr(61), Some(addr(99)), 0, url(2));
    assert!(r.is_ok());
    assert_eq!(p.gateway_of(&addr(99)), None);
}

#[test]
fn register_gateway_rejects_short_seed() {
    let mut p = fresh();
    let r = p.register_gateway_node(ADMIN, addr(61), Some(vec![60; 19]), 0, url(2));
    assert_eq!(r, Err(Error::InvalidArguments));
    assert_eq!(p.gateway_of(&addr(61)), None);
}

#[test]
fn register_gateway_rejects_short_address() {
    let mut p = fresh();
    let r = p.register_gateway_node(ADMIN, vec![60; 19], None, 0, url(2));
    assert_eq!(r, Err(Error::InvalidArguments));
}

#[test]
fn register_gateway_requires_admin() {
    let mut p = fresh();
    let stranger = Principal { id: 9 };
    let r = p.register_gateway_node(stranger, addr(60), None, 0, url(2));
    assert_eq!(r, Err(Error::Unauthorized));
    assert_eq!(p.gateway_of(&addr(60)), None);
}

#[test]
fn register_gateway_upserts_existing_record() {
    let mut p = fresh();
    p.register_gateway_node(ADMIN, addr(60), None, 2, url(1)).unwrap();
    p.register_gateway_node(ADMIN, addr(60), Some(addr(61)), 5, url(3)).unwrap();
    let expected = Gateway { address: addr(60), seed_address: Some(addr(61)), storage: 5 };
    assert_eq!(p.gateway_of(&addr(60)), Some(&expected));
    assert_eq!(p.node_url_of(&addr(60)), Some(&url(3)));
}
