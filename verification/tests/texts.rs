use cdk_blink::amount::{msat_to_sat_ceil, Amount, CurrencyUnit};
use cdk_blink::backoff::next_delay;
use cdk_blink::bolt11::Bolt11Invoice;
use cdk_blink::json::Json;
use cdk_blink::payment_hash::{decode_payment_hash, encode_payment_hash};
use cdk_blink::text::{
    contains, decimal_text, eq_ignore_ascii_case, is_white_space, parse_u16, replace, signed_text,
    to_ascii_lower, to_ascii_upper, trim,
};

const INVOICE: &str = "lnbc2500u1pvjluezsp5zyg3zyg3zyg3zyg3zyg3zyg3zyg3zyg3zyg3zyg3zyg3zyg3zygspp5qqqsyqcyq5rqwzqfqqqsyqcyq5rqwzqfqqqsyqcyq5rqwzqfqypqdq5xysxxatsyp3k7enxv4jsxqzpu9qrsgquk0rl77nj30yxdy8j9vdx85fkpmdla2087ne0xh8nhedh8w27kyke0lp53ut353s06fv3qfegext0eh0ymjpf39tuven09sam30g4vgpfna3rh";
const AMOUNTLESS: &str = "lnbc1pvjluezsp5zyg3zyg3zyg3zyg3zyg3zyg3zyg3zyg3zyg3zyg3zyg3zyg3zygspp5qqqsyqcyq5rqwzqfqqqsyqcyq5rqwzqfqqqsyqcyq5rqwzqfqypqdpl2pkx2ctnv5sxxmmwwd5kgetjypeh2ursdae8g6twvus8g6rfwvs8qun0dfjkxaq9qrsgq357wnc5r2ueh7ck6q93dj32dlqnls087fxdwk8qakdyafkq3yap9us6v52vjjsrvywa6rt52cm9r9zqt8r2t7mlcwspyetp5h2tztugp9lfyql";

#[test]
fn white_space_is_that_of_std() {
    for n in 0..=0x10FFFFu32 {
        if let Some(c) = char::from_u32(n) {
            assert_eq!(is_white_space(c), c.is_whitespace(), "{:?}", c);
        }
    }
}

#[test]
fn texts_are_handled_as_std_does() {
    for s in ["", " a b ", "\u{a0}x\u{2003}", "httpss://", "aaa", "\u{c4}bC"] {
        assert_eq!(trim(s), s.trim());
        assert_eq!(to_ascii_upper(s), s.to_ascii_uppercase());
        assert_eq!(to_ascii_lower(s), s.to_ascii_lowercase());
        for part in ["a", "aa", "ss:", "b "] {
            assert_eq!(contains(s, part), s.contains(part));
            assert_eq!(replace(s, part, "-a-"), s.replace(part, "-a-"));
        }
    }
    assert!(eq_ignore_ascii_case("PaId", "pAiD"));
    assert!(!eq_ignore_ascii_case("PAID", "PAID "));
}

#[test]
fn numbers_are_written_and_read() {
    for n in [0u64, 9, 10, 50051, u64::MAX] {
        assert_eq!(decimal_text(n), n.to_string());
    }
    for n in [0i64, -1, i64::MIN, i64::MAX] {
        assert_eq!(signed_text(n), n.to_string());
    }
    for s in ["0", "65535", "65536", "+7", "-7", "", "+", "007", "1 2"] {
        assert_eq!(parse_u16(s), s.parse::<u16>().ok(), "{:?}", s);
    }
}

#[test]
fn delays_double_up_to_the_cap() {
    assert_eq!(next_delay(1000, 30000), 2000);
    assert_eq!(next_delay(16000, 30000), 30000);
    assert_eq!(next_delay(30000, 30000), 30000);
    assert_eq!(next_delay(u64::MAX, u64::MAX), u64::MAX);
}

#[test]
fn payment_hashes_read_back() {
    let hash = [0xabu8; 32];
    let text = encode_payment_hash(&hash);
    assert_eq!(text, "ab".repeat(32));
    assert_eq!(decode_payment_hash(&text), Some(hash));
    assert_eq!(decode_payment_hash(&text.to_uppercase()), Some(hash));
    assert_eq!(decode_payment_hash("ab"), None);
    assert_eq!(decode_payment_hash(&"zz".repeat(32)), None);
    assert_eq!(decode_payment_hash(&"a".repeat(63)), None);
}

#[test]
fn amounts_are_converted_to_satoshis() {
    assert_eq!(Amount::new(7, CurrencyUnit::Sat).to_sat(), Some(7));
    assert_eq!(Amount::new(7999, CurrencyUnit::Msat).to_sat(), Some(7));
    assert_eq!(Amount::new(7, CurrencyUnit::Usd).to_sat(), None);
    assert_eq!(Amount::new(7, CurrencyUnit::Eur).to_sat(), None);
    assert_eq!(Amount::new(7, CurrencyUnit::Auth).to_sat(), None);
    assert_eq!(Amount::new(7, CurrencyUnit::Custom("sat".to_string())).to_sat(), None);
    assert_eq!(msat_to_sat_ceil(0), 0);
    assert_eq!(msat_to_sat_ceil(1), 1);
    assert_eq!(msat_to_sat_ceil(1000), 1);
    assert_eq!(msat_to_sat_ceil(1001), 2);
    assert_eq!(msat_to_sat_ceil(u64::MAX), u64::MAX / 1000 + 1);
}

#[test]
fn invoices_are_decoded() {
    let invoice = Bolt11Invoice::parse(INVOICE).expect("invoice");
    assert_eq!(invoice.text, INVOICE);
    assert_eq!(invoice.amount_msat, Some(250_000_000));
    assert_eq!(
        encode_payment_hash(&invoice.payment_hash),
        "0001020304050607080900010203040506070809000102030405060708090102"
    );
    let open = Bolt11Invoice::parse(AMOUNTLESS).expect("amountless invoice");
    assert_eq!(open.amount_msat, None);
    assert!(!Bolt11Invoice::parse("lnbc1nothing").unwrap_err().is_empty());
}

#[test]
fn json_is_parsed() {
    let json = Json::parse(r#"{"b":[null,true],"a":{"n":-3,"big":18446744073709551615,"f":1.5},"s":"x"}"#)
        .expect("json");
    assert_eq!(json.get("s").and_then(|s| s.as_str()), Some("x"));
    assert_eq!(json.get("a").and_then(|a| a.get("n")).and_then(|n| n.as_i64()), Some(-3));
    assert_eq!(json.get("a").and_then(|a| a.get("big")).and_then(|n| n.as_i64()), None);
    assert_eq!(json.get("a").and_then(|a| a.get("f")).and_then(|n| n.as_i64()), None);
    let written = |key: &str| match json.get("a").and_then(|a| a.get(key)) {
        Some(Json::Number(n)) => n.text.clone(),
        other => panic!("{:?}", other),
    };
    assert_eq!(written("n"), "-3");
    assert_eq!(written("big"), "18446744073709551615");
    assert_eq!(written("f"), "1.5");
    assert!(matches!(Json::unsigned(42), Json::Number(n) if n.text == "42"));
    assert!(json.get("missing").is_none());
    assert!(json.get("s").and_then(|s| s.get("x")).is_none());
    assert!(matches!(json.get("b"), Some(Json::Array(items)) if items.len() == 2));
    assert!(Json::parse("{").is_err());
    let twice = Json::parse(r#"{"k":1,"k":2}"#).expect("json");
    assert_eq!(twice.get("k").and_then(|n| n.as_i64()), Some(2));
}
