use blitzi::hexcode::encode_hex;
use blitzi::pay::{prepare_pay, PayError};

// A well-known BOLT 11 test vector carrying payment hash
// 0001020304050607080900010203040506070809000102030405060708090102.
const TEST_INVOICE: &str = "lnbc1pvjluezsp5zyg3zyg3zyg3zyg3zyg3zyg3zyg3zyg3zyg3zyg3zyg3zyg3zygspp5qqqsyqcyq5rqwzqfqqqsyqcyq5rqwzqfqqqsyqcyq5rqwzqfqypqdpl2pkx2ctnv5sxxmmwwd5kgetjypeh2ursdae8g6twvus8g6rfwvs8qun0dfjkxaq9qrsgq357wnc5r2ueh7ck6q93dj32dlqnls087fxdwk8qakdyafkq3yap9us6v52vjjsrvywa6rt52cm9r9zqt8r2t7mlcwspyetp5h2tztugp9lfyql";

#[test]
fn prepare_pay_accepts_a_valid_invoice() {
    let req = match prepare_pay(TEST_INVOICE) {
        Ok(req) => req,
        Err(_) => panic!("a valid BOLT 11 invoice must be accepted"),
    };
    assert_eq!(
        encode_hex(&req.payment_hash.bytes),
        "0001020304050607080900010203040506070809000102030405060708090102"
    );
    assert_eq!(
        encode_hex(&req.operation_id.bytes),
        "e88f6616c8345e7a4bec0d2df8c764442e36ccf88a49f6b4953a2d0f118150cc"
    );
}

#[test]
fn prepare_pay_is_deterministic_across_calls() {
    let first = prepare_pay(TEST_INVOICE).ok().unwrap_or_else(|| panic!("must parse"));
    let second = prepare_pay(TEST_INVOICE).ok().unwrap_or_else(|| panic!("must parse"));
    assert_eq!(first.operation_id.bytes, second.operation_id.bytes);
    assert_eq!(first.payment_hash.bytes, second.payment_hash.bytes);
}

#[test]
fn prepare_pay_rejects_garbage() {
    assert!(matches!(
        prepare_pay("definitely not an invoice"),
        Err(PayError::InvalidInvoice)
    ));
    assert!(matches!(prepare_pay(""), Err(PayError::InvalidInvoice)));
}

#[test]
fn prepare_pay_rejects_a_corrupted_invoice() {
    let mut corrupted = String::from(TEST_INVOICE);
    corrupted.pop();
    corrupted.push('q');
    assert!(matches!(
        prepare_pay(&corrupted),
        Err(PayError::InvalidInvoice)
    ));
}
