use std::str::FromStr;

use rollup_recovery::primitives::{AccountId, Address, TokenId, H256};
use rollup_recovery::tokens::{
    EventLog, IncorrectProverJobStatus, NewTokenEvent, NewTokenEventParseError, Token, TokenInfo,
    TokenKind, TokenLike, NFT,
};

fn address_of(byte: u8) -> Address {
    Address([byte; 20])
}

#[test]
fn token_like_is_rbtc() {
    let tokens = vec![
        TokenLike::Address(Address::zero()),
        TokenLike::Id(TokenId(0)),
        TokenLike::Symbol("RBTC".into()),
        TokenLike::Symbol("rbtc".into()),
    ];

    for token in tokens {
        assert!(token.is_rbtc());
    }
}

#[test]
fn token_like_to_case_insensitive() {
    assert_eq!(
        TokenLike::Symbol("RBTC".into()).to_lowercase(),
        TokenLike::Symbol("rbtc".into())
    );
}

#[test]
fn token_like_is_not_rbtc() {
    assert!(!TokenLike::Id(TokenId(1)).is_rbtc());
    assert!(!TokenLike::Address(address_of(1)).is_rbtc());
    assert!(!TokenLike::Symbol("RBTCX".into()).is_rbtc());
    assert!(!TokenLike::Symbol("RBT".into()).is_rbtc());
    assert!(!TokenLike::Symbol("RDOC".into()).is_rbtc());
    assert!(!TokenLike::Symbol("".into()).is_rbtc());
    // The character 32 places below `r` is no capital: only ASCII letters fold.
    assert!(!TokenLike::Symbol("Rb\u{54}\u{43}x".into()).is_rbtc());
    assert!(TokenLike::Symbol("rBtC".into()).is_rbtc());
    assert!(!TokenLike::Symbol("2BTC".into()).is_rbtc());
}

#[test]
fn token_like_lowercase_keeps_ids_and_addresses() {
    assert_eq!(TokenLike::Id(TokenId(7)).to_lowercase(), TokenLike::Id(TokenId(7)));
    assert_eq!(
        TokenLike::Address(address_of(0xAB)).to_lowercase(),
        TokenLike::Address(address_of(0xAB))
    );
    assert_eq!(
        TokenLike::Symbol("RdOc".into()).to_lowercase(),
        TokenLike::Symbol("rdoc".into())
    );
}

#[test]
fn token_like_parse_number_is_id() {
    assert_eq!(TokenLike::parse("0"), TokenLike::Id(TokenId(0)));
    assert_eq!(TokenLike::parse("17"), TokenLike::Id(TokenId(17)));
    assert_eq!(TokenLike::parse("+17"), TokenLike::Id(TokenId(17)));
    assert_eq!(TokenLike::parse("0017"), TokenLike::Id(TokenId(17)));
    assert_eq!(TokenLike::parse("4294967295"), TokenLike::Id(TokenId(u32::MAX)));
}

#[test]
fn token_like_parse_agrees_with_std_on_numbers() {
    let samples = [
        "", "+", "-", "-1", "+-1", "++1", "1 ", " 1", "1_0", "0x10", "4294967295", "4294967296",
        "99999999999999999999999", "00000000000000000000001", "12a", "٣", "+0", "-0",
    ];
    for text in samples {
        let expected = text.parse::<u32>().ok();
        assert_eq!(rollup_recovery::text::parse_u32(text), expected, "text {:?}", text);
    }
}

#[test]
fn token_like_parse_address() {
    let hex = "00112233445566778899aabbccddeeff00112233";
    let bytes = [
        0x00, 0x11, 0x22, 0x33, 0x44, 0x55, 0x66, 0x77, 0x88, 0x99, 0xaa, 0xbb, 0xcc, 0xdd, 0xee,
        0xff, 0x00, 0x11, 0x22, 0x33,
    ];
    assert_eq!(TokenLike::parse(hex), TokenLike::Address(Address(bytes)));
    assert_eq!(
        TokenLike::parse(&format!("0x{}", hex)),
        TokenLike::Address(Address(bytes))
    );
    assert_eq!(
        TokenLike::parse(&hex.to_uppercase()),
        TokenLike::Address(Address(bytes))
    );
}

#[test]
fn token_like_parse_symbol() {
    assert_eq!(TokenLike::parse("RBTC"), TokenLike::Symbol("RBTC".into()));
    assert_eq!(TokenLike::parse("0x12"), TokenLike::Symbol("0x12".into()));
    assert_eq!(TokenLike::parse(""), TokenLike::Symbol("".into()));
    assert_eq!(
        TokenLike::parse("4294967296"),
        TokenLike::Symbol("4294967296".into())
    );
    // One digit short of an address.
    assert_eq!(
        TokenLike::parse("0x00112233445566778899aabbccddeeff0011223"),
        TokenLike::Symbol("0x00112233445566778899aabbccddeeff0011223".into())
    );
}

#[test]
fn token_like_classify_takes_the_parsed_address() {
    assert_eq!(
        TokenLike::classify("abc", Some(address_of(9))),
        TokenLike::Address(address_of(9))
    );
    assert_eq!(TokenLike::classify("abc", None), TokenLike::Symbol("abc".into()));
    // A number is an identifier even where an address is offered.
    assert_eq!(
        TokenLike::classify("12", Some(address_of(9))),
        TokenLike::Id(TokenId(12))
    );
}

#[test]
fn token_like_prints_and_parses_back() {
    for id in [0u32, 9, 10, 65535, 65536, u32::MAX] {
        let text = TokenLike::Id(TokenId(id)).to_text();
        assert_eq!(text, id.to_string());
        assert_eq!(TokenLike::parse(&text), TokenLike::Id(TokenId(id)));
    }
    let address = Address([
        0x00, 0x1f, 0xa2, 0x33, 0x44, 0x55, 0x66, 0x77, 0x88, 0x99, 0xaa, 0xbb, 0xcc, 0xdd, 0xee,
        0xff, 0x00, 0x11, 0x22, 0x0c,
    ]);
    let text = TokenLike::Address(address).to_text();
    assert_eq!(text, "0x001fa233445566778899aabbccddeeff0011220c");
    assert_eq!(TokenLike::parse(&text), TokenLike::Address(address));
    assert_eq!(TokenLike::Symbol("RDOC".into()).to_text(), "RDOC");
}

#[test]
fn token_like_from_values() {
    assert_eq!(TokenLike::from_id(TokenId(3)), TokenLike::Id(TokenId(3)));
    assert_eq!(
        TokenLike::from_address(address_of(3)),
        TokenLike::Address(address_of(3))
    );
    assert_eq!(TokenLike::from_symbol("abc"), TokenLike::Symbol("abc".into()));
}

#[test]
fn token_new_sets_nft_flag_by_kind() {
    let erc = Token::new(TokenId(1), address_of(1), "RDOC", 18, TokenKind::ERC20);
    assert_eq!(erc.id, TokenId(1));
    assert_eq!(erc.address, address_of(1));
    assert_eq!(erc.symbol, "RDOC");
    assert_eq!(erc.decimals, 18);
    assert_eq!(erc.kind, TokenKind::ERC20);
    assert!(!erc.is_nft);
    let nft = Token::new(TokenId(2), address_of(2), "N", 0, TokenKind::NFT);
    assert!(nft.is_nft);
    let none = Token::new(TokenId(3), address_of(3), "X", 1, TokenKind::Absent);
    assert!(!none.is_nft);
}

#[test]
fn token_new_nft() {
    let nft = Token::new_nft(TokenId(70000), "NFT-70000");
    assert_eq!(
        nft,
        Token {
            id: TokenId(70000),
            address: Address::zero(),
            symbol: "NFT-70000".to_string(),
            decimals: 0,
            kind: TokenKind::NFT,
            is_nft: true,
        }
    );
}

#[test]
fn token_defaults() {
    assert_eq!(TokenKind::default(), TokenKind::ERC20);
    let token = Token::default();
    assert_eq!(token.id, TokenId(0));
    assert!(token.address.is_zero());
    assert_eq!(token.symbol, "");
    assert_eq!(token.kind, TokenKind::ERC20);
    assert!(!token.is_nft);
}

#[test]
fn token_info_new() {
    let info = TokenInfo::new(address_of(5), "RIF", 18);
    assert_eq!(info.address, address_of(5));
    assert_eq!(info.symbol, "RIF");
    assert_eq!(info.decimals, 18);
}

#[test]
fn nft_new_default_symbol() {
    let nft = NFT::new(
        TokenId(65537),
        4,
        AccountId(2),
        address_of(1),
        address_of(2),
        None,
        H256([7; 32]),
    );
    assert_eq!(nft.symbol, "NFT-65537");
    assert_eq!(nft.id, TokenId(65537));
    assert_eq!(nft.serial_id, 4);
    assert_eq!(nft.creator_id, AccountId(2));
    assert_eq!(nft.creator_address, address_of(1));
    assert_eq!(nft.address, address_of(2));
    assert_eq!(nft.content_hash, H256([7; 32]));
    let zero = NFT::new(TokenId(0), 0, AccountId(0), address_of(0), address_of(0), None, H256([0; 32]));
    assert_eq!(zero.symbol, "NFT-0");
}

#[test]
fn nft_new_given_symbol() {
    let nft = NFT::new(
        TokenId(65537),
        4,
        AccountId(2),
        address_of(1),
        address_of(2),
        Some("ART".to_string()),
        H256([7; 32]),
    );
    assert_eq!(nft.symbol, "ART");
}

fn token_log(topics: Vec<H256>, block_number: Option<u64>) -> EventLog {
    EventLog {
        address: address_of(0xEE),
        topics,
        data: vec![],
        block_number,
        transaction_hash: Some(H256([1; 32])),
        transaction_index: Some(0),
        log_index: Some(0),
    }
}

fn word_with_tail(tail: &[u8]) -> H256 {
    let mut word = [0u8; 32];
    word[32 - tail.len()..].copy_from_slice(tail);
    H256(word)
}

#[test]
fn new_token_event_from_log() {
    let mut address_word = [0xFFu8; 32];
    for (i, byte) in address_word.iter_mut().enumerate().skip(12) {
        *byte = i as u8;
    }
    let log = token_log(
        vec![H256([9; 32]), H256(address_word), word_with_tail(&[0x01, 0x02])],
        Some(1234),
    );
    assert!(NewTokenEvent::has_valid_id(&log));
    let event = NewTokenEvent::try_from(log).unwrap();
    assert_eq!(event.eth_block_number, 1234);
    assert_eq!(
        event.address,
        Address([12, 13, 14, 15, 16, 17, 18, 19, 20, 21, 22, 23, 24, 25, 26, 27, 28, 29, 30, 31])
    );
    assert_eq!(event.id, TokenId(0x0102));
}

#[test]
fn new_token_event_largest_id() {
    let log = token_log(
        vec![H256([9; 32]), H256([0; 32]), word_with_tail(&[0xFF, 0xFF, 0xFF, 0xFF])],
        Some(1),
    );
    assert_eq!(NewTokenEvent::try_from(log).unwrap().id, TokenId(u32::MAX));
}

#[test]
fn new_token_event_wrong_topic_count() {
    let log = token_log(vec![H256([9; 32]), H256([0; 32])], Some(1));
    assert!(NewTokenEvent::has_valid_id(&log));
    match NewTokenEvent::try_from(log.clone()) {
        Err(NewTokenEventParseError::ParseError(refused)) => assert_eq!(refused, log),
        Ok(_) => panic!("a log with two topics is no token registration"),
    }
    let four = token_log(vec![H256([9; 32]); 4], Some(1));
    assert!(NewTokenEvent::try_from(four).is_err());
}

#[test]
fn new_token_event_without_block() {
    let log = token_log(vec![H256([9; 32]), H256([0; 32]), H256([0; 32])], None);
    assert!(NewTokenEvent::has_valid_id(&log));
    assert!(NewTokenEvent::try_from(log).is_err());
}

#[test]
fn new_token_event_id_too_large_is_flagged() {
    let log = token_log(
        vec![H256([9; 32]), H256([0; 32]), word_with_tail(&[1, 0, 0, 0, 0])],
        Some(1),
    );
    assert!(!NewTokenEvent::has_valid_id(&log));
}

#[test]
fn h256_to_u32() {
    assert_eq!(H256([0; 32]).to_u32(), Some(0));
    assert_eq!(word_with_tail(&[1, 0]).to_u32(), Some(256));
    assert_eq!(word_with_tail(&[0xFF, 0xFF, 0xFF, 0xFF]).to_u32(), Some(u32::MAX));
    assert_eq!(word_with_tail(&[1, 0, 0, 0, 0]).to_u32(), None);
    assert_eq!(H256([0xFF; 32]).to_u32(), None);
    let mut high = [0u8; 32];
    high[0] = 1;
    assert_eq!(H256(high).to_u32(), None);
}

#[test]
fn address_and_hash_comparisons() {
    assert!(Address::zero().is_zero());
    assert!(!address_of(1).is_zero());
    let mut last = [0u8; 20];
    last[19] = 1;
    assert!(!Address(last).is_zero());
    assert!(address_of(4).same_as(&address_of(4)));
    assert!(!address_of(4).same_as(&address_of(5)));
    assert!(H256([4; 32]).same_as(&H256([4; 32])));
    assert!(!H256([4; 32]).same_as(&H256([5; 32])));
}

#[test]
fn incorrect_prover_job_status_message() {
    assert_eq!(
        IncorrectProverJobStatus(7).message(),
        "Incorrect ProverJobStatus number: 7"
    );
    assert_eq!(
        IncorrectProverJobStatus(-12).message(),
        "Incorrect ProverJobStatus number: -12"
    );
    assert_eq!(
        IncorrectProverJobStatus(i32::MIN).message(),
        format!("Incorrect ProverJobStatus number: {}", i32::MIN)
    );
    assert_eq!(
        IncorrectProverJobStatus(0).message(),
        "Incorrect ProverJobStatus number: 0"
    );
}

#[test]
fn decimal_and_hex_text() {
    for n in [0u64, 1, 9, 10, 99, 100, 12345, u64::MAX] {
        assert_eq!(rollup_recovery::text::u64_to_decimal(n), n.to_string());
    }
    for n in [0i32, 1, -1, 1000, -1000, i32::MAX, i32::MIN] {
        assert_eq!(rollup_recovery::text::i32_to_decimal(n), n.to_string());
    }
    assert_eq!(rollup_recovery::text::bytes_to_hex(&[]), "0x");
    assert_eq!(
        rollup_recovery::text::bytes_to_hex(&[0x00, 0x0f, 0xf0, 0xab, 0x9c]),
        "0x000ff0ab9c"
    );
    assert_eq!(rollup_recovery::text::strip_0x("0xabc"), "abc");
    assert_eq!(rollup_recovery::text::strip_0x("0x"), "");
    assert_eq!(rollup_recovery::text::strip_0x("0Xabc"), "0Xabc");
    assert_eq!(rollup_recovery::text::strip_0x("x0abc"), "x0abc");
    assert_eq!(rollup_recovery::text::strip_0x("0"), "0");
    assert_eq!(rollup_recovery::text::strip_0x("0x0x1"), "0x1");
}

#[test]
fn token_like_parse_follows_the_address_parser() {
    let samples = [
        "00112233445566778899aabbccddeeff00112233",
        "0x00112233445566778899aabbccddeeff00112233",
        "0x0x00112233445566778899aabbccddeeff00112233",
        "0x0x0x00112233445566778899aabbccddeeff00112233",
        "00112233445566778899aabbccddeeff0011223 3",
        "0x00112233445566778899AABBCCDDEEFF00112233\n",
        "00112233445566778899aabbccddeeff001122",
        "00112233445566778899aabbccddeeff0011223344",
        "00112233445566778899aabbccddeeff0011223g",
        "0x",
        "RBTC",
        "ffffffffffffffffffffffffffffffffffffffff",
    ];
    for text in samples {
        let stripped = text.strip_prefix("0x").unwrap_or(text);
        let expected = match web3::types::H160::from_str(stripped) {
            Ok(address) => TokenLike::Address(Address(address.0)),
            Err(_) => TokenLike::Symbol(text.to_string()),
        };
        assert_eq!(TokenLike::parse(text), expected, "text {:?}", text);
    }
}

#[test]
fn token_like_lowercase_follows_unicode() {
    for symbol in ["ÀÉÎ", "ΑΣ", "İ", "straße", "ǅ", "RBTC-2", ""] {
        assert_eq!(
            TokenLike::Symbol(symbol.to_string()).to_lowercase(),
            TokenLike::Symbol(symbol.to_lowercase()),
            "symbol {:?}",
            symbol
        );
    }
    assert_eq!(
        TokenLike::Symbol("ÀÉÎ".to_string()).to_lowercase(),
        TokenLike::Symbol("àéî".to_string())
    );
}
