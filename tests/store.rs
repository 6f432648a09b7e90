use sentinel::{
    after_connect, after_poll, after_publish, get_device_link, get_tag, publish_if_current,
    publish_link, reconfigure_device_link,
    snapshot_device_link, CodecError, DeviceLink, Link, LinkIdQuery, LinkStatus, ModbusTcpConfig,
    Protocol, TagIdQuery, TaskStep, RECONNECT_BACKOFF_MS,
};

fn link(id: usize, n: usize) -> DeviceLink {
    let p = Protocol::ModbusTcp(ModbusTcpConfig::new("127.0.0.1".to_string(), 5502));
    DeviceLink::new(format!("L{}", id), "LK".to_string(), id, p, n, 1000)
}

fn table() -> Vec<Link> {
    vec![Link::Eval, Link::Device(link(0, 2)), Link::Device(link(1, 3))]
}

#[test]
fn lookup_device_link_by_id() {
    let links = table();
    assert_eq!(get_device_link(&links, &LinkIdQuery { link_id: 1 }).unwrap().name, "L1");
    assert_eq!(get_device_link(&links, &LinkIdQuery { link_id: 0 }).unwrap().name, "L0");
    assert_eq!(get_device_link(&links, &LinkIdQuery { link_id: 7 }), Err(CodecError::NotFound));
}

#[test]
fn lookup_tag_by_ids() {
    let links = table();
    let t = get_tag(&links, &TagIdQuery { link_id: 1, tag_id: 2 }).unwrap();
    assert_eq!(t.tk, "LK1:002");
    assert_eq!(get_tag(&links, &TagIdQuery { link_id: 0, tag_id: 2 }), Err(CodecError::NotFound));
    assert_eq!(get_tag(&links, &TagIdQuery { link_id: 5, tag_id: 0 }), Err(CodecError::NotFound));
}

#[test]
fn reconfigure_replaces_whole_record() {
    let mut links = table();
    let mut update = link(1, 5);
    update.name = "RENAMED".to_string();
    assert_eq!(reconfigure_device_link(&mut links, update.clone()), Ok(()));
    assert_eq!(links[2], Link::Device(update));
    assert_eq!(links[0], Link::Eval);
}

#[test]
fn reconfigure_unknown_link_is_not_found() {
    let mut links = table();
    let before = links.clone();
    assert_eq!(reconfigure_device_link(&mut links, link(9, 1)), Err(CodecError::NotFound));
    assert_eq!(links, before);
}

#[test]
fn snapshot_and_publish_by_index() {
    let mut links = table();
    assert!(snapshot_device_link(&links, 0).is_none());
    assert!(snapshot_device_link(&links, 3).is_none());
    let mut copy = snapshot_device_link(&links, 2).unwrap().clone();
    copy.poll(sentinel::Family::Modbus, &Vec::new(), 77);
    publish_link(&mut links, 2, Link::Device(copy.clone()));
    assert_eq!(snapshot_device_link(&links, 2), Some(&copy));
    assert_eq!(links[1], table()[1]);
}

#[test]
fn task_steps() {
    assert_eq!(after_connect(true), TaskStep::PollAfter(0));
    assert_eq!(after_connect(false), TaskStep::ReconnectAfter(RECONNECT_BACKOFF_MS));
    assert_eq!(after_poll(&LinkStatus::Normal, 500), TaskStep::PollAfter(500));
    assert_eq!(after_poll(&LinkStatus::Error("x".to_string()), 500), TaskStep::ReconnectAfter(2000));
    assert_eq!(after_poll(&LinkStatus::NeedsToReconnect, 500), TaskStep::ReconnectAfter(2000));
}

#[test]
fn publish_only_over_the_record_last_seen() {
    let mut links = table();
    let seen = snapshot_device_link(&links, 1).unwrap().clone();
    let mut polled = seen.clone();
    polled.mark_connected();
    polled.poll(sentinel::Family::Modbus, &Vec::new(), 5);
    assert!(publish_if_current(&mut links, 1, &seen, Link::Device(polled.clone())));
    assert_eq!(links[1], Link::Device(polled.clone()));

    // A reconfiguration lands in between: the stale copy is not stored.
    let mut update = link(0, 4);
    update.name = "NEW".to_string();
    assert_eq!(reconfigure_device_link(&mut links, update.clone()), Ok(()));
    let mut again = polled.clone();
    again.poll(sentinel::Family::Modbus, &Vec::new(), 6);
    assert!(!publish_if_current(&mut links, 1, &polled, Link::Device(again)));
    assert_eq!(links[1], Link::Device(update));
    assert!(!publish_if_current(&mut links, 0, &polled, Link::Eval));
    assert!(!publish_if_current(&mut links, 9, &polled, Link::Eval));
}

#[test]
fn stale_copy_reconnects_at_once() {
    assert_eq!(after_publish(false, &LinkStatus::Normal, 500), TaskStep::ReconnectAfter(0));
    assert_eq!(after_publish(true, &LinkStatus::Normal, 500), TaskStep::PollAfter(500));
    assert_eq!(
        after_publish(true, &LinkStatus::Error("e".to_string()), 500),
        TaskStep::ReconnectAfter(RECONNECT_BACKOFF_MS)
    );
}

#[test]
fn lookup_ids_are_not_truncated() {
    let big = (1usize << 32) + 1;
    let links = vec![Link::Device(link(big, 2))];
    assert_eq!(get_device_link(&links, &LinkIdQuery { link_id: 1 }), Err(CodecError::NotFound));
    assert_eq!(get_tag(&links, &TagIdQuery { link_id: 1, tag_id: 0 }), Err(CodecError::NotFound));
}
