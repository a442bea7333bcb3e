use cosmos::tx::{Coin, TxBuilder, TypedMessage};

#[test]
fn builder_accumulates_messages_in_order() {
    let b = TxBuilder::default()
        .add_message(TypedMessage::new("/a".to_owned(), vec![1]))
        .add_message(TypedMessage::new("/b".to_owned(), vec![2, 3]))
        .set_memo("hello".to_owned());
    let urls: Vec<&str> = b.messages().iter().map(|m| m.type_url.as_str()).collect();
    assert_eq!(urls, vec!["/a", "/b"]);
    assert_eq!(b.body_memo(), "hello");
    assert!(!b.code_check_skipped());
    let b = b.set_optional_memo(None).skip_code_check(true);
    assert_eq!(b.body_memo(), "");
    assert!(b.code_check_skipped());
}

#[test]
fn update_admin_message_is_encoded() {
    let b = TxBuilder::new().add_update_contract_admin("contract", "wallet", "admin");
    let m = &b.messages()[0];
    assert_eq!(m.type_url, "/cosmwasm.wasm.v1.MsgUpdateAdmin");
    let mut expected = vec![0x0a, 6];
    expected.extend_from_slice(b"wallet");
    expected.extend_from_slice(&[0x12, 5]);
    expected.extend_from_slice(b"admin");
    expected.extend_from_slice(&[0x1a, 8]);
    expected.extend_from_slice(b"contract");
    assert_eq!(m.value, expected);
}

#[test]
fn execute_message_is_encoded() {
    let funds = vec![Coin { denom: "u".to_owned(), amount: "5".to_owned() }];
    let b = TxBuilder::new().add_execute_message("c", "w", funds, b"{}".to_vec());
    let m = &b.messages()[0];
    assert_eq!(m.type_url, "/cosmwasm.wasm.v1.MsgExecuteContract");
    let expected = vec![
        0x0a, 1, b'w', 0x12, 1, b'c', 0x1a, 2, b'{', b'}', 0x2a, 6, 0x0a, 1, b'u', 0x12, 1, b'5',
    ];
    assert_eq!(m.value, expected);
}

#[test]
fn typed_message_into_inner() {
    let (url, value) = TypedMessage::new("/x".to_owned(), vec![7]).into_inner();
    assert_eq!(url, "/x");
    assert_eq!(value, vec![7]);
}
