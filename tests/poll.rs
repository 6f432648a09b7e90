use sentinel::{
    CodecError, DeviceLink, Family, LinkStatus, ModbusRegister, ModbusTcpConfig, Protocol,
    ReadReply, S7Addr, TagAddress, TagStatus, TagValue, TagWriteInfo,
};

fn modbus_protocol() -> Protocol {
    Protocol::ModbusTcp(ModbusTcpConfig::new("127.0.0.1".to_string(), 5502))
}

fn float_link() -> DeviceLink {
    let mut link = DeviceLink::new(
        "MB_LINK".to_string(),
        "LK".to_string(),
        1,
        modbus_protocol(),
        1,
        500,
    );
    link.tags[0].enabled = true;
    link.tags[0].address = TagAddress::ModbusAddr(ModbusRegister::Holding(100));
    link.tags[0].value = TagValue::Real(3.14f32.to_bits());
    link
}

#[test]
fn poll_decodes_float_from_two_registers() {
    let mut link = float_link();
    let replies: Vec<ReadReply> = vec![Ok(vec![0x4048, 0xF5C3])];
    link.poll(Family::Modbus, &replies, 1_000);
    match link.tags[0].value {
        TagValue::Real(bits) => {
            let v = f32::from_bits(bits);
            assert!((v - 3.14).abs() < 1e-5);
            assert_eq!(bits, 0x4048F5C3);
        }
        ref other => panic!("unexpected value {:?}", other),
    }
    assert_eq!(link.tags[0].status, TagStatus::Normal);
    assert_eq!(link.status, LinkStatus::Normal);
    assert_eq!(link.last_poll_time, 1_000);
}

#[test]
fn poll_transport_error_marks_tag_and_link() {
    let mut link = float_link();
    let before = link.last_poll_time;
    let replies: Vec<ReadReply> = vec![Err("connection reset".to_string())];
    link.poll(Family::Modbus, &replies, 2_000);
    assert_eq!(link.tags[0].status, TagStatus::Error("connection reset".to_string()));
    assert_eq!(
        link.status,
        LinkStatus::Error("Reading failed at Tag: 0. Error: connection reset".to_string())
    );
    assert_eq!(link.tags[0].value, TagValue::Real(3.14f32.to_bits()));
    assert!(link.last_poll_time > before);
    assert_eq!(link.last_poll_time, 2_000);
}

#[test]
fn poll_skips_disabled_tags() {
    let mut link = float_link();
    link.tags[0].enabled = false;
    let replies: Vec<ReadReply> = vec![Err("must not be used".to_string())];
    link.poll(Family::Modbus, &replies, 3_000);
    assert_eq!(link.tags[0].status, TagStatus::Error("not enabled".to_string()));
    assert_eq!(link.tags[0].value, TagValue::Real(3.14f32.to_bits()));
    assert_eq!(link.status, LinkStatus::Normal);
    assert_eq!(link.last_poll_time, 3_000);
}

#[test]
fn poll_all_disabled_still_stamps_time() {
    let mut link = DeviceLink::new("L".to_string(), "LK".to_string(), 2, modbus_protocol(), 3, 100);
    link.poll(Family::Modbus, &Vec::new(), 42);
    assert_eq!(link.last_poll_time, 42);
    assert_eq!(link.status, LinkStatus::Normal);
    for tag in link.tags.iter() {
        assert_eq!(tag.status, TagStatus::Error("not enabled".to_string()));
    }
}

#[test]
fn poll_last_failing_tag_wins() {
    let mut link = DeviceLink::new("L".to_string(), "LK".to_string(), 1, modbus_protocol(), 3, 100);
    for tag in link.tags.iter_mut() {
        tag.enabled = true;
        tag.value = TagValue::Int(0);
    }
    let replies: Vec<ReadReply> = vec![
        Err("first failure".to_string()),
        Ok(vec![7]),
        Err("second failure".to_string()),
    ];
    link.poll(Family::Modbus, &replies, 10);
    assert_eq!(link.tags[0].status, TagStatus::Error("first failure".to_string()));
    assert_eq!(link.tags[1].status, TagStatus::Normal);
    assert_eq!(link.tags[1].value, TagValue::Int(7));
    assert_eq!(link.tags[2].status, TagStatus::Error("second failure".to_string()));
    assert_eq!(
        link.status,
        LinkStatus::Error("Reading failed at Tag: 2. Error: second failure".to_string())
    );
}

#[test]
fn poll_missing_reply_is_a_failure() {
    let mut link = float_link();
    link.poll(Family::Modbus, &Vec::new(), 5);
    assert_eq!(link.tags[0].status, TagStatus::Error("No reply from the session.".to_string()));
    assert!(matches!(link.status, LinkStatus::Error(_)));
}

#[test]
fn poll_address_of_other_family_fails() {
    let mut link = float_link();
    link.tags[0].address = TagAddress::S7Addr(S7Addr { db: 1, offset: 0, start_bit: 0 });
    let replies: Vec<ReadReply> = vec![Ok(vec![1, 2])];
    link.poll(Family::Modbus, &replies, 5);
    assert_eq!(
        link.tags[0].status,
        TagStatus::Error("Link context not compatible with tag address.".to_string())
    );
    assert_eq!(
        link.status,
        LinkStatus::Error(
            "Reading failed at Tag: 0. Error: Link context not compatible with tag address."
                .to_string()
        )
    );
}

#[test]
fn write_tag_unknown_id_is_not_found() {
    let mut link = float_link();
    let before = link.clone();
    let info = TagWriteInfo { link_id: 1, tag_id: 9, value: TagValue::Real(0) };
    assert_eq!(link.write_tag(&info, Family::Modbus), Err(CodecError::NotFound));
    assert_eq!(link, before);
}

#[test]
fn write_tag_splits_float_high_word_first() {
    let mut link = float_link();
    let info = TagWriteInfo { link_id: 1, tag_id: 0, value: TagValue::Real(0x4048F5C3) };
    let w = link.write_tag(&info, Family::Modbus).unwrap();
    assert_eq!(w, sentinel::RegisterWrite::Pair { start: 100, hi: 0x4048, lo: 0xF5C3 });
    assert_eq!(link.tags[0].status, TagStatus::Normal);
}

#[test]
fn write_tag_kind_mismatch_fails() {
    let mut link = float_link();
    let info = TagWriteInfo { link_id: 1, tag_id: 0, value: TagValue::Int(5) };
    assert_eq!(link.write_tag(&info, Family::Modbus), Err(CodecError::ValueTypeMismatch));
}

#[test]
fn reconfigure_then_poll_uses_new_tags_and_protocol() {
    let mut link = float_link();
    let mut update = DeviceLink::new("NEW".to_string(), "LK".to_string(), 1, modbus_protocol(), 2, 250);
    update.tags[1].enabled = true;
    update.tags[1].value = TagValue::Dint(0);
    update.tags[1].address = TagAddress::ModbusAddr(ModbusRegister::Input(7));
    link.reconfigure(update.clone());
    assert_eq!(link, update);
    let session = link.session_family();
    assert_eq!(session, Family::Modbus);
    let replies: Vec<ReadReply> = vec![Err("unused".to_string()), Ok(vec![0x0001, 0x0002])];
    link.poll(session, &replies, 9);
    assert_eq!(link.tags.len(), 2);
    assert_eq!(link.name, "NEW");
    assert_eq!(link.tags[1].value, TagValue::Dint(0x0001_0002));
    assert_eq!(link.status, LinkStatus::Normal);
}

#[test]
fn new_link_names_and_keys() {
    let link = DeviceLink::new("MB".to_string(), "PLC".to_string(), 123, modbus_protocol(), 12, 500);
    assert_eq!(link.tk, "PLC123");
    assert_eq!(link.tags.len(), 12);
    assert_eq!(link.tag_count, 12);
    assert_eq!(link.tags[7].name, "TAG7");
    assert_eq!(link.tags[7].tk, "LK123:007");
    assert_eq!(link.tags[11].tk, "LK123:011");
    assert_eq!(link.tags[0].address, TagAddress::ModbusAddr(ModbusRegister::Holding(0)));
    assert_eq!(link.tags[0].status, TagStatus::Error("Initiated.".to_string()));
    assert!(!link.tags[0].enabled);
    assert!(!link.enabled);
    assert_eq!(link.status, LinkStatus::Error("Disconnected".to_string()));
    assert_eq!(link.error_message, "Disconnected.");
    assert_eq!(link.last_poll_time, 0);
}

#[test]
fn new_link_s7_default_address() {
    let p = Protocol::S7(sentinel::S7Config { ip: "10.0.0.1".to_string(), rack: 0, slot: 1 });
    let link = DeviceLink::new("S7".to_string(), "PLC".to_string(), 4, p, 1, 500);
    assert_eq!(link.tags[0].address, TagAddress::S7Addr(S7Addr { db: 1, offset: 0, start_bit: 0 }));
    assert_eq!(link.session_family(), Family::S7);
}

#[test]
fn connect_endpoint_of_modbus_tcp() {
    let mut link = float_link();
    assert_eq!(link.connect_endpoint(), Ok("127.0.0.1:5502".to_string()));
    link.mark_connected();
    assert_eq!(link.status, LinkStatus::Normal);
}

#[test]
fn connect_endpoint_of_placeholder_protocol() {
    let link = DeviceLink::new("E".to_string(), "LK".to_string(), 1, Protocol::Eip(sentinel::EipConfig {}), 1, 500);
    assert_eq!(link.connect_endpoint(), Err(CodecError::Unimplemented));
    assert_eq!(link.tags[0].address, TagAddress::EipAddr);
}

#[test]
fn read_requests_skip_disabled_and_unreadable_tags() {
    let mut link = DeviceLink::new("L".to_string(), "LK".to_string(), 1, modbus_protocol(), 3, 100);
    link.tags[0].enabled = true;
    link.tags[0].value = TagValue::Dint(0);
    link.tags[0].address = TagAddress::ModbusAddr(ModbusRegister::Input(9));
    link.tags[2].enabled = true;
    link.tags[2].value = TagValue::Bit(false);
    let requests = link.read_requests(Family::Modbus);
    assert_eq!(
        requests,
        vec![
            Some(sentinel::RegisterRead { table: sentinel::RegisterTable::Input, start: 9, count: 2 }),
            None,
            None,
        ]
    );
}
