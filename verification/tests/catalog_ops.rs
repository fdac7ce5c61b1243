use coldstack::types::Error;
use coldstack::types::Event;
use coldstack::types::Principal;
use coldstack::GenesisConfig;
use coldstack::Pallet;

fn addr(b: u8) -> Vec<u8> {
    vec![b; 20]
}

fn hash(b: u8) -> Vec<u8> {
    vec![b; 32]
}

fn url(b: u8) -> Vec<u8> {
    vec![b; 13]
}

const ADMIN: Principal = Principal { id: 1 };
const NODE: Principal = Principal { id: 2 };

/// A fresh state with `NODE` granted the File role for address 40.
fn file_state() -> Pallet {
    let genesis = GenesisConfig { key: ADMIN, total_issuance: 1000 };
    let mut p = genesis.build();
    p.grant_file_permission(ADMIN, addr(40), NODE, url(1)).unwrap();
    p
}

#[test]
fn upload_counts_and_attributes_the_acting_node() {
    let mut p = file_state();
    let r = p.upload(NODE, addr(10), hash(1), 3, 2048, hash(2), addr(50));
    assert_eq!(
        r,
        Ok(Event::Upload(addr(10), hash(1), 2048, hash(2), addr(50), addr(40), 3))
    );
    assert_eq!(p.total_file_count(), 1);
    assert_eq!(p.total_file_size(), 2048);
}

#[test]
fn uploads_accumulate_counters() {
    let mut p = file_state();
    p.upload(NODE, addr(10), hash(1), 0, 100, hash(2), addr(50)).unwrap();
    p.upload(NODE, addr(11), hash(3), 1, 250, hash(4), addr(50)).unwrap();
    assert_eq!(p.total_file_count(), 2);
    assert_eq!(p.total_file_size(), 350);
}

#[test]
fn upload_without_file_permission_fails() {
    let mut p = file_state();
    let stranger = Principal { id: 9 };
    let r = p.upload(stranger, addr(10), hash(1), 0, 100, hash(2), addr(50));
    assert_eq!(r, Err(Error::Unauthorized));
    assert_eq!(p.total_file_count(), 0);
    assert_eq!(p.total_file_size(), 0);
}

#[test]
fn upload_validates_field_lengths() {
    let mut p = file_state();
    let short_addr = vec![10; 19];
    let short_hash = vec![1; 31];
    let r1 = p.upload(NODE, short_addr.clone(), hash(1), 0, 1, hash(2), addr(50));
    assert_eq!(r1, Err(Error::InvalidArguments));
    let r2 = p.upload(NODE, addr(10), hash(1), 0, 1, hash(2), short_addr);
    assert_eq!(r2, Err(Error::InvalidArguments));
    let r3 = p.upload(NODE, addr(10), hash(1), 0, 1, short_hash.clone(), addr(50));
    assert_eq!(r3, Err(Error::InvalidArguments));
    let r4 = p.upload(NODE, addr(10), short_hash, 0, 1, hash(2), addr(50));
    assert_eq!(r4, Err(Error::InvalidArguments));
    assert_eq!(p.total_file_count(), 0);
    assert_eq!(p.total_file_size(), 0);
}

#[test]
fn unbound_admin_is_attributed_an_empty_node_address() {
    let mut p = file_state();
    let r = p.upload(ADMIN, addr(10), hash(1), 0, 64, hash(2), addr(50));
    assert_eq!(
        r,
        Ok(Event::Upload(addr(10), hash(1), 64, hash(2), addr(50), Vec::new(), 0))
    );
}

#[test]
fn download_leaves_all_state_unchanged() {
    let mut p = file_state();
    let r = p.download(NODE, addr(10), hash(1), 512, hash(2), addr(50));
    assert_eq!(
        r,
        Ok(Event::Download(addr(10), hash(1), 512, hash(2), addr(50), addr(40)))
    );
    assert_eq!(p.total_file_count(), 0);
    assert_eq!(p.total_file_size(), 0);
}

#[test]
fn download_without_permission_fails() {
    let mut p = file_state();
    let stranger = Principal { id: 9 };
    let r = p.download(stranger, addr(10), hash(1), 512, hash(2), addr(50));
    assert_eq!(r, Err(Error::Unauthorized));
}

#[test]
fn download_validates_field_lengths() {
    let mut p = file_state();
    let r = p.download(NODE, addr(10), vec![1; 31], 512, hash(2), addr(50));
    assert_eq!(r, Err(Error::InvalidArguments));
}

#[test]
fn delete_emits_but_keeps_counters() {
    let mut p = file_state();
    p.upload(NODE, addr(10), hash(1), 0, 100, hash(2), addr(50)).unwrap();
    let r = p.delete(NODE, addr(10), hash(1));
    assert_eq!(r, Ok(Event::Delete(addr(10), hash(1), addr(40))));
    assert_eq!(p.total_file_count(), 1);
    assert_eq!(p.total_file_size(), 100);
}

#[test]
fn delete_validates_field_lengths() {
    let mut p = file_state();
    let r1 = p.delete(NODE, vec![10; 19], hash(1));
    assert_eq!(r1, Err(Error::InvalidArguments));
    let r2 = p.delete(NODE, addr(10), vec![1; 31]);
    assert_eq!(r2, Err(Error::InvalidArguments));
}

#[test]
fn delete_without_permission_fails() {
    let mut p = file_state();
    let stranger = Principal { id: 9 };
    let r = p.delete(stranger, addr(10), hash(1));
    assert_eq!(r, Err(Error::Unauthorized));
}
