use citadel_capi::client::{citadel_client_t, citadel_has_err, citadel_is_ok};
use citadel_capi::config::{storage_location, Config, FileConfig, FileFormat};
use citadel_capi::kinds::{descriptor_type, invoice_type, validity_t, ContentType, InvoiceType, Validity};
use citadel_capi::strings::{release_string, transfer_in, transfer_out};
use citadel_capi::transfer::{marshal_transfer, prepared_transfer_t, PreparedTransfer};
use citadel_capi::validation::{validation_status_t, Status};

fn sample_psbt() -> bitcoin::Psbt {
    let tx = bitcoin::Transaction {
        version: bitcoin::transaction::Version::TWO,
        lock_time: bitcoin::absolute::LockTime::ZERO,
        input: vec![],
        output: vec![],
    };
    bitcoin::Psbt::from_unsigned_tx(tx).expect("empty transaction has no signatures")
}

#[test]
fn descriptor_kind_round_trip_all_variants() {
    let all = [
        ContentType::Bare,
        ContentType::Hashed,
        ContentType::SegWit,
        ContentType::Taproot,
    ];
    for t in all {
        let boundary = descriptor_type::from(t);
        let back = ContentType::from(boundary);
        assert_eq!(back, t);
    }
}

#[test]
fn invoice_kind_round_trip_all_variants() {
    let all = [InvoiceType::AddressUtxo, InvoiceType::Descriptor, InvoiceType::Psbt];
    for t in all {
        let boundary = invoice_type::from(t);
        let back = InvoiceType::from(boundary);
        assert_eq!(back, t);
    }
}

#[test]
fn stable_numeric_codes() {
    assert_eq!(descriptor_type::BARE.code(), 0);
    assert_eq!(descriptor_type::HASHED.code(), 1);
    assert_eq!(descriptor_type::SEGWIT.code(), 2);
    assert_eq!(descriptor_type::TAPROOT.code(), 3);
    assert_eq!(invoice_type::ADDRESS_UTXO.code(), 0);
    assert_eq!(invoice_type::DESCRIPTOR.code(), 1);
    assert_eq!(invoice_type::PSBT.code(), 2);
    assert_eq!(validity_t::UNABLE_TO_VALIDATE.code(), 0);
    assert_eq!(validity_t::VALID.code(), 1);
    assert_eq!(validity_t::UNRESOLVED_TX.code(), 2);
    assert_eq!(validity_t::INVALID.code(), 3);
}

#[test]
fn validity_mapping_never_yields_sentinel() {
    assert_eq!(validity_t::from(Validity::Valid), validity_t::VALID);
    assert_eq!(validity_t::from(Validity::UnresolvedTransactions), validity_t::UNRESOLVED_TX);
    assert_eq!(validity_t::from(Validity::Invalid), validity_t::INVALID);
}

#[test]
fn transfer_out_rejects_embedded_terminator() {
    let text = vec![b'a', 0u8, b'b'];
    let r = transfer_out(&text);
    assert!(r.is_none());
}

#[test]
fn transfer_out_round_trips_clean_text() {
    let text = b"hello world".to_vec();
    let b = transfer_out(&text).expect("no terminator inside");
    let back = transfer_in(Some(b)).expect("a real buffer comes back");
    assert_eq!(back, text);
}

#[test]
fn transfer_out_round_trips_empty_text() {
    let text: Vec<u8> = vec![];
    let b = transfer_out(&text).expect("empty text has no terminator inside");
    let back = transfer_in(Some(b)).expect("a real buffer comes back");
    assert_eq!(back, text);
}

#[test]
fn transfer_in_of_null_is_a_no_op() {
    assert!(transfer_in(None).is_none());
    release_string(None);
}

#[test]
fn prepared_transfer_failure_has_no_texts() {
    let r = prepared_transfer_t::failure();
    assert!(!r.success);
    assert!(r.consignment_bech32.is_none());
    assert!(r.psbt_base64.is_none());
}

#[test]
fn prepared_transfer_encodes_psbt_as_base64() {
    let psbt = sample_psbt();
    let expected = base64::encode(psbt.serialize()).into_bytes();
    let r = prepared_transfer_t::from(PreparedTransfer { psbt, consignment_text: None });
    assert!(r.success);
    assert!(r.consignment_bech32.is_none());
    let text = transfer_in(r.psbt_base64).expect("transaction text is mandatory");
    assert_eq!(text, expected);
    // The magic bytes `psbt\xff` open every serialized transaction, so
    // its text form always opens with their base64 image.
    assert_eq!(&text[..7], b"cHNidP8");
}

#[test]
fn marshal_transfer_base64_known_vectors() {
    let cases: [(&[u8], &[u8]); 4] = [
        (b"", b""),
        (b"M", b"TQ=="),
        (b"Ma", b"TWE="),
        (b"Man", b"TWFu"),
    ];
    for (input, expected) in cases {
        let r = marshal_transfer(&input.to_vec(), None);
        assert!(r.success);
        let text = transfer_in(r.psbt_base64).unwrap();
        assert_eq!(text, expected.to_vec());
    }
}

#[test]
fn prepared_transfer_keeps_clean_consignment() {
    let psbt = sample_psbt();
    let consignment = b"rgb1qxz".to_vec();
    let r = prepared_transfer_t::from(PreparedTransfer {
        psbt,
        consignment_text: Some(consignment.clone()),
    });
    assert!(r.success);
    let text = transfer_in(r.consignment_bech32).expect("clean consignment is kept");
    assert_eq!(text, consignment);
}

#[test]
fn prepared_transfer_drops_consignment_with_terminator() {
    let psbt = sample_psbt();
    let r = prepared_transfer_t::from(PreparedTransfer {
        psbt,
        consignment_text: Some(vec![b'r', 0u8, b'g']),
    });
    assert!(r.success);
    assert!(r.consignment_bech32.is_none());
    assert!(r.psbt_base64.is_some());
}

#[test]
fn validation_failure_is_sentinel_with_empty_arrays() {
    let r = validation_status_t::failure();
    assert_eq!(r.validity, validity_t::UNABLE_TO_VALIDATE);
    assert_eq!(r.info_len, 0);
    assert_eq!(r.warn_len, 0);
    assert_eq!(r.failures_len, 0);
    assert!(r.info.is_empty());
    assert!(r.warn.is_empty());
    assert!(r.failures.is_empty());
}

#[test]
fn validation_convert_two_failures_is_invalid() {
    let status = Status {
        unresolved_txids: vec![],
        failures: vec![b"schema mismatch".to_vec(), b"bad seal".to_vec()],
        warnings: vec![],
        info: vec![],
    };
    let mut r = validation_status_t::convert(status);
    assert_eq!(r.validity, validity_t::INVALID);
    assert_eq!(r.info_len, 0);
    assert!(r.info.is_empty());
    assert_eq!(r.warn_len, 0);
    assert!(r.warn.is_empty());
    assert_eq!(r.failures_len, 2);
    let second = r.failures.pop().unwrap();
    let first = r.failures.pop().unwrap();
    assert_eq!(transfer_in(Some(first)).unwrap(), b"schema mismatch".to_vec());
    assert_eq!(transfer_in(Some(second)).unwrap(), b"bad seal".to_vec());
}

#[test]
fn validation_convert_unresolved_and_valid() {
    let pending = Status {
        unresolved_txids: vec![b"deadbeef".to_vec()],
        failures: vec![],
        warnings: vec![b"old schema".to_vec()],
        info: vec![b"seen".to_vec()],
    };
    let r = validation_status_t::convert(pending);
    assert_eq!(r.validity, validity_t::UNRESOLVED_TX);
    assert_eq!(r.warn_len, 1);
    assert_eq!(r.info_len, 1);

    let clean = Status { unresolved_txids: vec![], failures: vec![], warnings: vec![], info: vec![] };
    let r = validation_status_t::convert(clean);
    assert_eq!(r.validity, validity_t::VALID);
}

#[test]
fn validation_failures_dominate_unresolved() {
    let status = Status {
        unresolved_txids: vec![b"deadbeef".to_vec()],
        failures: vec![b"bad seal".to_vec()],
        warnings: vec![],
        info: vec![],
    };
    let r = validation_status_t::convert(status);
    assert_eq!(r.validity, validity_t::INVALID);
}

#[test]
fn client_health_flags() {
    let healthy = citadel_client_t { last_error: None };
    assert!(citadel_is_ok(&healthy));
    assert!(!citadel_has_err(&healthy));

    let broken = citadel_client_t { last_error: Some(b"connection lost".to_vec()) };
    assert!(!citadel_is_ok(&broken));
    assert!(citadel_has_err(&broken));
}

#[test]
fn storage_conf_joins_base_name_and_yaml_extension() {
    let config = Config {
        chain: b"signet".to_vec(),
        rpc_endpoint: b"lnpz://127.0.0.1:61399".to_vec(),
        rgb20_endpoint: b"lnpz://127.0.0.1:61401".to_vec(),
        data_dir: b"/data".to_vec(),
        verbose: 0,
        electrum_server: b"electrum.example.com:50001".to_vec(),
    };
    let FileConfig { location, format } = config.storage_conf();
    assert_eq!(format, FileFormat::Yaml);
    assert_eq!(location, b"/data/citadel.yaml".to_vec());
}

#[test]
fn storage_location_toml_extension() {
    let location = storage_location(&b"C:\\wallets".to_vec(), FileFormat::Toml);
    assert!(location.ends_with(b"citadel.toml"));
    let location = storage_location(&b"/tmp".to_vec(), FileFormat::Json);
    assert_eq!(location, b"/tmp/citadel.json".to_vec());
}
