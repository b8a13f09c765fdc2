use protobuf::well_known_types::Any;
use protobuf::Message;
use terraswap_pool::error::ContractError;
use terraswap_pool::response::MsgInstantiateContractResponse;

// `Any` has the fields of an instantiate response under other names: a text
// in field 1 and bytes in field 2. What protobuf reads into it is what the
// library has to read.
fn reference(bytes: &[u8]) -> Option<MsgInstantiateContractResponse> {
    Any::parse_from_bytes(bytes)
        .ok()
        .map(|any| MsgInstantiateContractResponse {
            contract_address: any.type_url,
            data: any.value,
        })
}

fn parsed(bytes: &[u8]) -> Option<MsgInstantiateContractResponse> {
    match MsgInstantiateContractResponse::parse_from_bytes(bytes) {
        Ok(response) => Some(response),
        Err(ContractError::ParseError) => None,
        Err(other) => panic!("a decoding failure was reported as {:?}", other),
    }
}

fn agrees(bytes: &[u8]) -> Option<MsgInstantiateContractResponse> {
    let ours = parsed(bytes);
    assert_eq!(ours, reference(bytes), "on {:?}", bytes);
    ours
}

fn response(contract_address: &str, data: &[u8]) -> MsgInstantiateContractResponse {
    MsgInstantiateContractResponse {
        contract_address: contract_address.to_string(),
        data: data.to_vec(),
    }
}

#[test]
fn empty_payload_is_an_empty_response() {
    assert_eq!(agrees(&[]), Some(response("", &[])));
}

#[test]
fn address_field_is_read() {
    let bytes = [0x0a, 0x03, b'a', b'b', b'c'];
    assert_eq!(agrees(&bytes), Some(response("abc", &[])));
}

#[test]
fn address_and_data_are_read() {
    let bytes = [0x0a, 0x02, b'l', b'p', 0x12, 0x03, 1, 2, 3];
    assert_eq!(agrees(&bytes), Some(response("lp", &[1, 2, 3])));
}

#[test]
fn fields_may_come_in_any_order() {
    let bytes = [0x12, 0x01, 0xff, 0x0a, 0x01, b'x'];
    assert_eq!(agrees(&bytes), Some(response("x", &[0xff])));
}

#[test]
fn a_repeated_field_keeps_its_last_value() {
    let bytes = [0x0a, 0x01, b'a', 0x0a, 0x02, b'b', b'c', 0x12, 0x01, 7, 0x12, 0x00];
    assert_eq!(agrees(&bytes), Some(response("bc", &[])));
}

#[test]
fn encoded_by_protobuf_and_decoded_by_the_library() {
    let mut any = Any::new();
    any.set_type_url("terra1contractaddress".to_string());
    any.set_value(vec![0, 1, 2, 250, 251]);
    let bytes = any.write_to_bytes().unwrap();
    assert_eq!(
        agrees(&bytes),
        Some(response("terra1contractaddress", &[0, 1, 2, 250, 251]))
    );
}

#[test]
fn an_address_of_two_hundred_bytes_has_a_two_byte_length() {
    let address = "a".repeat(200);
    let mut bytes = vec![0x0a, 0xc8, 0x01];
    bytes.extend_from_slice(address.as_bytes());
    assert_eq!(agrees(&bytes), Some(response(&address, &[])));
}

#[test]
fn an_address_outside_ascii_is_decoded_as_utf8() {
    let address = "pøøl-\u{6c60}-\u{1f4a7}";
    let mut bytes = vec![0x0a, address.len() as u8];
    bytes.extend_from_slice(address.as_bytes());
    assert_eq!(agrees(&bytes), Some(response(address, &[])));
}

#[test]
fn an_address_that_is_not_utf8_is_refused() {
    assert_eq!(agrees(&[0x0a, 0x02, 0xc3, 0x28]), None);
    assert_eq!(agrees(&[0x0a, 0x01, 0x80]), None);
    assert_eq!(agrees(&[0x0a, 0x03, 0xed, 0xa0, 0x80]), None);
}

#[test]
fn data_need_not_be_utf8() {
    assert_eq!(agrees(&[0x12, 0x02, 0xc3, 0x28]), Some(response("", &[0xc3, 0x28])));
}

#[test]
fn a_value_cut_short_is_refused() {
    assert_eq!(agrees(&[0x0a]), None);
    assert_eq!(agrees(&[0x0a, 0x03, b'a', b'b']), None);
    assert_eq!(agrees(&[0x12, 0x80]), None);
    assert_eq!(agrees(&[0x19, 1, 2, 3, 4, 5, 6, 7]), None);
    assert_eq!(agrees(&[0x1d, 1, 2, 3]), None);
}

#[test]
fn a_known_field_of_the_wrong_wire_type_is_refused() {
    assert_eq!(agrees(&[0x08, 0x01]), None);
    assert_eq!(agrees(&[0x10, 0x01]), None);
    assert_eq!(agrees(&[0x0d, 1, 2, 3, 4]), None);
    assert_eq!(agrees(&[0x0b, 0x0c]), None);
}

#[test]
fn unknown_fields_are_passed_over() {
    // Field 3 as a varint, field 4 as eight bytes, field 5 as four bytes and
    // field 6 as delimited bytes, around the address.
    let bytes = [
        0x18, 0x96, 0x01, 0x21, 1, 2, 3, 4, 5, 6, 7, 8, 0x0a, 0x01, b'z', 0x2d, 9, 9, 9, 9, 0x32,
        0x02, 0xff, 0xfe,
    ];
    assert_eq!(agrees(&bytes), Some(response("z", &[])));
}

#[test]
fn an_unknown_group_is_passed_over() {
    // Field 3 opens a group that holds a varint and delimited bytes and is
    // closed by a tag of another field number.
    let bytes = [0x1b, 0x08, 0x05, 0x12, 0x01, b'q', 0x24, 0x0a, 0x01, b'k'];
    assert_eq!(agrees(&bytes), Some(response("k", &[])));
}

#[test]
fn a_group_inside_a_group_is_refused() {
    assert_eq!(agrees(&[0x1b, 0x23, 0x24, 0x1c]), None);
}

#[test]
fn a_group_left_open_is_refused() {
    assert_eq!(agrees(&[0x1b]), None);
    assert_eq!(agrees(&[0x1b, 0x08, 0x05]), None);
}

#[test]
fn a_group_end_outside_a_group_is_refused() {
    assert_eq!(agrees(&[0x1c]), None);
}

#[test]
fn field_number_zero_is_refused() {
    assert_eq!(agrees(&[0x02, 0x00]), None);
    assert_eq!(agrees(&[0x00]), None);
}

#[test]
fn wire_types_six_and_seven_are_refused() {
    assert_eq!(agrees(&[0x1e]), None);
    assert_eq!(agrees(&[0x1f]), None);
}

#[test]
fn a_tag_padded_to_ten_bytes_is_read() {
    let bytes = [
        0x8a, 0x80, 0x80, 0x80, 0x80, 0x80, 0x80, 0x80, 0x80, 0x00, 0x01, b'p',
    ];
    assert_eq!(agrees(&bytes), Some(response("p", &[])));
}

#[test]
fn a_varint_of_eleven_bytes_is_refused() {
    let bytes = [
        0x8a, 0x80, 0x80, 0x80, 0x80, 0x80, 0x80, 0x80, 0x80, 0x80, 0x00, 0x01, b'p',
    ];
    assert_eq!(agrees(&bytes), None);
}

#[test]
fn a_tag_is_cut_to_its_low_thirty_two_bits() {
    // The bits above the thirty-second spell nothing: this is field 1,
    // length-delimited, again.
    let bytes = [0x8a, 0x80, 0x80, 0x80, 0xf0, 0xff, 0xff, 0xff, 0xff, 0x7f, 0x01, b'w'];
    assert_eq!(agrees(&bytes), Some(response("w", &[])));
}

#[test]
fn a_length_is_cut_to_its_low_thirty_two_bits() {
    let bytes = [0x0a, 0x81, 0x80, 0x80, 0x80, 0x10, b'v'];
    assert_eq!(agrees(&bytes), Some(response("v", &[])));
}

#[test]
fn json_is_no_instantiate_response() {
    assert_eq!(agrees(b"{\"get_config\":{}}"), None);
}

#[test]
fn get_contract_address_gives_the_address() {
    let bytes = [0x0a, 0x03, b'a', b'b', b'c'];
    let response = MsgInstantiateContractResponse::parse_from_bytes(&bytes).unwrap();
    assert_eq!(response.get_contract_address(), "abc");
}

// Byte strings drawn from the bytes that tags, lengths and texts are made
// of, so that many of them decode and many nearly do.
#[test]
fn the_library_and_protobuf_agree_on_many_short_payloads() {
    let alphabet: [u8; 24] = [
        0x00, 0x01, 0x02, 0x03, 0x04, 0x08, 0x0a, 0x0b, 0x0c, 0x0d, 0x10, 0x12, 0x18, 0x19, 0x1a,
        0x1b, 0x1c, 0x1d, 0x61, 0x7f, 0x80, 0x81, 0xc3, 0xff,
    ];
    let mut state: u64 = 0x9e37_79b9_7f4a_7c15;
    let mut decoded = 0u32;
    for _ in 0..60_000 {
        state = state
            .wrapping_mul(6364136223846793005)
            .wrapping_add(1442695040888963407);
        let length = ((state >> 60) % 13) as usize;
        let mut bytes = Vec::with_capacity(length);
        for _ in 0..length {
            state = state
                .wrapping_mul(6364136223846793005)
                .wrapping_add(1442695040888963407);
            bytes.push(alphabet[((state >> 33) % 24) as usize]);
        }
        if agrees(&bytes).is_some() {
            decoded += 1;
        }
    }
    assert!(decoded > 1000, "only {} payloads decoded", decoded);
}
