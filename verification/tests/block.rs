use block_ledger::block::Block;

#[test]
fn create_keeps_fields() {
    let b = Block::new(
        7,
        String::from("some payload"),
        String::from("prior-identity"),
    );
    assert_eq!(b.id(), 7);
    assert_eq!(b.data(), "some payload");
    assert_eq!(b.previous_hash(), "prior-identity");
}

#[test]
fn genesis_block_fields() {
    let genesis = Block::new(0, String::from("Genesis Block"), String::from("0"));
    assert_eq!(genesis.id(), 0);
    assert_eq!(genesis.previous_hash(), "0");
    assert_eq!(genesis.data(), "Genesis Block");
}

#[test]
fn hash_is_placeholder_regardless_of_content() {
    let genesis = Block::new(0, String::from("Genesis Block"), String::from("0"));
    assert_eq!(genesis.hash(), "temp_hash");

    let other = Block::new(
        u64::MAX,
        String::from("entirely different payload"),
        String::from("another-predecessor"),
    );
    assert_eq!(other.hash(), "temp_hash");

    let empty = Block::new(3, String::new(), String::new());
    assert_eq!(empty.hash(), "temp_hash");
}

#[test]
fn genesis_display_line() {
    let genesis = Block::new(0, String::from("Genesis Block"), String::from("0"));
    let line = genesis.display_line();
    assert_eq!(line, "ID: 0, Data: Genesis Block, Hash: temp_hash");

    let id_at = line.find("ID: 0").unwrap();
    let data_at = line.find("Data: Genesis Block").unwrap();
    let hash_at = line.find("temp_hash").unwrap();
    assert!(id_at < data_at);
    assert!(data_at < hash_at);
}

#[test]
fn display_line_of_later_block() {
    let b = Block::new(41, String::from("payload"), String::from("abc123"));
    assert_eq!(b.display_line(), "ID: 41, Data: payload, Hash: temp_hash");
}
