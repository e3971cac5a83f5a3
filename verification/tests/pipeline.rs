use vanity_miner::address::{checksum_address, checksum_round_trip, derive_address};
use vanity_miner::config::WordCount;
use vanity_miner::keys::{count_words, derive_public_key, generate, KeyError};

#[test]
fn generate_12_words() {
    let creds = generate(WordCount::Words12).unwrap();
    assert_eq!(creds.mnemonic.split_whitespace().count(), 12);
    assert_eq!(count_words(&creds.mnemonic), 12);
    assert_eq!(creds.public_key.len(), 65);
    assert_eq!(creds.public_key[0], 4);
}

#[test]
fn generate_24_words() {
    let creds = generate(WordCount::Words24).unwrap();
    assert_eq!(creds.mnemonic.split_whitespace().count(), 24);
    assert_eq!(count_words(&creds.mnemonic), 24);
    assert_eq!(creds.public_key.len(), 65);
    assert_eq!(creds.public_key[0], 4);
}

#[test]
fn word_counting() {
    assert_eq!(count_words(""), 0);
    assert_eq!(count_words("   "), 0);
    assert_eq!(count_words("one"), 1);
    assert_eq!(count_words("one two three"), 3);
    assert_eq!(count_words("  padded   runs  "), 2);
}

#[test]
fn generated_mnemonic_rederives_same_key() {
    let creds = generate(WordCount::Words12).unwrap();
    let again = derive_public_key(&creds.mnemonic).unwrap();
    assert_eq!(creds.public_key, again);
}

#[test]
fn known_phrase_derives_known_address() {
    let phrase = "panda eyebrow bullet gorilla call smoke muffin taste mesh \
                  discover soft ostrich alcohol speed nation flash devote level \
                  hobby quick inner drive ghost inside";
    let phrase = phrase.split_whitespace().collect::<Vec<_>>().join(" ");
    let pk = derive_public_key(&phrase).unwrap();
    let address = derive_address(&pk);
    assert_eq!(
        address.to_lowercase(),
        "0x63f9a92d8d61b48a9fff8d58080425a3012d05c8"
    );
}

#[test]
fn derive_address_is_deterministic() {
    let creds = generate(WordCount::Words12).unwrap();
    let a1 = derive_address(&creds.public_key);
    let a2 = derive_address(&creds.public_key);
    assert_eq!(a1, a2);
}

#[test]
fn derived_address_is_checksummed_hex() {
    let creds = generate(WordCount::Words24).unwrap();
    let address = derive_address(&creds.public_key);
    assert_eq!(address.len(), 42);
    assert!(address.starts_with("0x"));
    assert!(address[2..].chars().all(|c| c.is_ascii_hexdigit()));
}

#[test]
fn checksum_known_vector() {
    let input = b"fb6916095ca1df60bb79ce92ce3ea74c37c5d359".to_vec();
    let out = checksum_address(&input);
    assert_eq!(out, b"0xfB6916095ca1df60bB79Ce92cE3Ea74c37c5d359".to_vec());
}

#[test]
fn checksum_survives_round_trip() {
    let input = b"fb6916095ca1df60bb79ce92ce3ea74c37c5d359".to_vec();
    assert!(checksum_round_trip(&input));
    let creds = generate(WordCount::Words12).unwrap();
    let address = derive_address(&creds.public_key);
    let body = address[2..].to_lowercase().into_bytes();
    assert!(checksum_round_trip(&body));
}

#[test]
fn rechecksum_of_lowercased_address_reproduces_it() {
    let creds = generate(WordCount::Words12).unwrap();
    let address = derive_address(&creds.public_key);
    let body = address[2..].to_lowercase().into_bytes();
    let again = checksum_address(&body);
    assert_eq!(again, address.clone().into_bytes());
}

#[test]
fn invalid_phrase_is_rejected() {
    assert_eq!(
        derive_public_key("definitely not a mnemonic"),
        Err(KeyError::InvalidPhrase)
    );
    // A phrase of valid words whose built-in checksum is wrong.
    let bad = "abandon abandon abandon abandon abandon abandon abandon abandon \
               abandon abandon abandon abandon";
    let bad = bad.split_whitespace().collect::<Vec<_>>().join(" ");
    assert_eq!(derive_public_key(&bad), Err(KeyError::InvalidPhrase));
}
