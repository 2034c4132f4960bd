use midichan::message::{DeviceRequest, DeviceResponse, MidiMessage, RouterResponse};
use midichan::supervisor::{expect_done, expect_list, expect_presence, Direction, PortSupervisor, SupervisorStep};

fn open(sup: &mut PortSupervisor<u32>, name: &str, port: usize) -> DeviceResponse {
    match sup.plan(DeviceRequest::OpenIn(name.to_string(), port)) {
        SupervisorStep::Connect(n, p) => {
            assert_eq!(p, port);
            sup.connected(n, Ok(p as u32))
        }
        SupervisorStep::Reply(r) => r,
        _ => panic!("unexpected step"),
    }
}

fn query(sup: &mut PortSupervisor<u32>, name: &str) -> DeviceResponse {
    match sup.plan(DeviceRequest::QueryDevice(name.to_string())) {
        SupervisorStep::Reply(r) => r,
        _ => panic!("unexpected step"),
    }
}

#[test]
fn open_query_close_query() {
    let mut sup = PortSupervisor::new(Direction::Input);
    assert_eq!(open(&mut sup, "X", 4), DeviceResponse::Success);
    assert_eq!(query(&mut sup, "X"), DeviceResponse::Device("X".to_string(), true));
    match sup.plan(DeviceRequest::CloseIn("X".to_string())) {
        SupervisorStep::Release(h) => assert_eq!(h, Some(4)),
        _ => panic!("unexpected step"),
    }
    assert_eq!(query(&mut sup, "X"), DeviceResponse::Device("X".to_string(), false));
}

#[test]
fn second_open_is_a_duplicate() {
    let mut sup = PortSupervisor::new(Direction::Input);
    assert_eq!(open(&mut sup, "X", 4), DeviceResponse::Success);
    assert_eq!(
        open(&mut sup, "X", 5),
        DeviceResponse::Error("input handler: device already added".to_string())
    );
}

#[test]
fn closing_a_missing_name_releases_nothing() {
    let mut sup: PortSupervisor<u32> = PortSupervisor::new(Direction::Output);
    match sup.plan(DeviceRequest::CloseOut("Z".to_string())) {
        SupervisorStep::Release(h) => assert_eq!(h, None),
        _ => panic!("unexpected step"),
    }
}

#[test]
fn wrong_direction_is_unknown() {
    let mut sup: PortSupervisor<u32> = PortSupervisor::new(Direction::Output);
    match sup.plan(DeviceRequest::OpenIn("A".to_string(), 0)) {
        SupervisorStep::Reply(r) => {
            assert_eq!(r, DeviceResponse::Error("output handler: unknown command".to_string()))
        }
        _ => panic!("unexpected step"),
    }
}

#[test]
fn close_for_the_other_direction_keeps_the_table() {
    let mut sup = PortSupervisor::new(Direction::Output);
    match sup.plan(DeviceRequest::OpenOut("A".to_string(), 1)) {
        SupervisorStep::Connect(n, _) => {
            sup.connected(n, Ok(1u32));
        }
        _ => panic!("unexpected step"),
    }
    match sup.plan(DeviceRequest::CloseIn("A".to_string())) {
        SupervisorStep::Reply(r) => {
            assert_eq!(r, DeviceResponse::Error("output handler: unknown command".to_string()))
        }
        _ => panic!("unexpected step"),
    }
    assert_eq!(sup.open_names(), vec!["A".to_string()]);
}

#[test]
fn backend_refusal_is_reported() {
    let mut sup: PortSupervisor<u32> = PortSupervisor::new(Direction::Output);
    let r = sup.connected("A".to_string(), Err("no such port".to_string()));
    assert_eq!(
        r,
        DeviceResponse::Error("output handler: failed to add device: no such port".to_string())
    );
    assert_eq!(query(&mut sup, "A"), DeviceResponse::Device("A".to_string(), false));
}

#[test]
fn shutdown_hands_back_every_handle() {
    let mut sup = PortSupervisor::new(Direction::Input);
    open(&mut sup, "A", 1);
    open(&mut sup, "B", 2);
    match sup.plan(DeviceRequest::Shutdown) {
        SupervisorStep::Stop(hs) => assert_eq!(hs, vec![2, 1]),
        _ => panic!("unexpected step"),
    }
    assert!(sup.open_names().is_empty());
    assert!(matches!(sup.plan(DeviceRequest::QueryList), SupervisorStep::ListPorts));
}

#[test]
fn outbound_message_finds_its_port() {
    let mut sup = PortSupervisor::new(Direction::Output);
    match sup.plan(DeviceRequest::OpenOut("LP".to_string(), 3)) {
        SupervisorStep::Connect(n, _) => {
            sup.connected(n, Ok(30u32));
        }
        _ => panic!("unexpected step"),
    }
    let hit = MidiMessage::new("LP");
    let i = sup.port_index(&hit).unwrap();
    assert_eq!(*sup.port_mut(i), 30);
    *sup.port_mut(i) = 31;
    assert_eq!(sup.open_names(), vec!["LP".to_string()]);
    assert_eq!(*sup.port_mut(i), 31);
    let miss = MidiMessage::new("other");
    assert!(sup.port_index(&miss).is_none());
}

#[test]
fn caller_reads_replies() {
    assert_eq!(expect_done("input device", Some(DeviceResponse::Success)), Ok(()));
    assert_eq!(
        expect_done("input device", Some(DeviceResponse::Error("bad".to_string()))),
        Err("bad".to_string())
    );
    assert_eq!(
        expect_done("input device", Some(DeviceResponse::List(vec![]))),
        Err("input device desync".to_string())
    );
    assert_eq!(expect_done("router", None), Err("router timed out".to_string()));
    assert_eq!(
        expect_presence("x", Some(DeviceResponse::Device("a".to_string(), true))),
        Ok(true)
    );
    assert_eq!(expect_presence("x", Some(DeviceResponse::Success)), Err("x desync".to_string()));
    assert_eq!(
        expect_list("x", Some(DeviceResponse::List(vec!["p".to_string()]))),
        Ok(vec!["p".to_string()])
    );
    assert_eq!(expect_list("x", None), Err("x timed out".to_string()));
    assert_eq!(
        RouterResponse::Device("a".to_string(), false).into_device_response(),
        DeviceResponse::Device("a".to_string(), false)
    );
}
