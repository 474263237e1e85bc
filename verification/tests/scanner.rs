use alagappa_tools::identify::{DeviceInfo, IdentifyExchange};
use alagappa_tools::transport::IoRequest;
use alagappa_tools::scanner::{
    format_address, scan_targets, AdmissionGate, BiometricDevice, HostProbe, ProbeAction,
    ScanPlan, AUXILIARY_TIMEOUT_MS, MAX_CONCURRENT, PRIMARY_PORT, PRIMARY_TIMEOUT_MS,
    SECONDARY_PORT, WEB_ALT_PORT, WEB_PORT,
};

fn info(name: &str, firmware: &str, serial: &str) -> DeviceInfo {
    DeviceInfo {
        device_name: name.to_string(),
        firmware_version: firmware.to_string(),
        serial_number: serial.to_string(),
    }
}

/// Drives a probe against a host that has exactly `open` ports open and
/// identifies itself with `identity`; returns the actions asked for.
fn drive_probe(ip: &str, open: &[u16], identity: Option<DeviceInfo>) -> (Vec<ProbeAction>, HostProbe) {
    let mut probe = HostProbe::new(ip.to_string());
    let mut asked = Vec::new();
    for _ in 0..20 {
        let action = probe.next_action();
        asked.push(action);
        match action {
            ProbeAction::Probe { port, .. } => probe.record_port(open.contains(&port)),
            ProbeAction::Identify { .. } => probe.record_identity(identity.clone()),
            ProbeAction::Done => break,
        }
    }
    assert!(probe.is_done());
    assert_eq!(probe.host(), ip);
    (asked, probe)
}

fn drive(
    ip: &str,
    open: &[u16],
    identity: Option<DeviceInfo>,
) -> (Vec<ProbeAction>, Option<BiometricDevice>) {
    let (asked, probe) = drive_probe(ip, open, identity);
    (asked, probe.into_device())
}

/// The finished probing of a host on which nothing answers.
fn nothing_at(ip: &str) -> HostProbe {
    drive_probe(ip, &[], None).1
}

/// The finished probing of a host on which `port` answers.
fn terminal_at(ip: &str, port: u16) -> HostProbe {
    drive_probe(ip, &[port], None).1
}

#[test]
fn constants_have_their_values() {
    assert_eq!(PRIMARY_PORT, 4370);
    assert_eq!(SECONDARY_PORT, 4360);
    assert_eq!(WEB_PORT, 80);
    assert_eq!(WEB_ALT_PORT, 8080);
    assert_eq!(PRIMARY_TIMEOUT_MS, 300);
    assert_eq!(AUXILIARY_TIMEOUT_MS, 200);
    assert_eq!(MAX_CONCURRENT, 100);
}

#[test]
fn addresses_are_written_dotted() {
    assert_eq!(format_address(192, 168, 1, 50), "192.168.1.50");
    assert_eq!(format_address(0, 0, 0, 0), "0.0.0.0");
    assert_eq!(format_address(255, 255, 255, 255), "255.255.255.255");
    assert_eq!(format_address(10, 0, 100, 7), "10.0.100.7");
}

#[test]
fn scan_range_is_hosts_1_to_254_of_the_local_24() {
    let targets = scan_targets([192, 168, 1, 50]);
    assert_eq!(targets.len(), 254);
    assert_eq!(targets[0], "192.168.1.1");
    assert_eq!(targets[9], "192.168.1.10");
    assert_eq!(targets[49], "192.168.1.50");
    assert_eq!(targets[253], "192.168.1.254");
    for (i, t) in targets.iter().enumerate() {
        assert_eq!(*t, format!("192.168.1.{}", i + 1));
    }
}

#[test]
fn host_on_primary_port_with_name_yields_device() {
    let (asked, device) = drive("192.168.1.10", &[4370], Some(info("ZK-100", "", "")));
    assert_eq!(
        asked,
        vec![
            ProbeAction::Probe { port: 4370, timeout_ms: 300 },
            ProbeAction::Probe { port: 80, timeout_ms: 200 },
            ProbeAction::Probe { port: 8080, timeout_ms: 200 },
            ProbeAction::Probe { port: 4360, timeout_ms: 200 },
            ProbeAction::Identify { port: 4370 },
            ProbeAction::Done,
        ]
    );
    let device = device.unwrap();
    assert_eq!(device.ip, "192.168.1.10");
    assert!(device.open_ports.contains(&4370));
    assert_eq!(device.device_name, Some("ZK-100".to_string()));
    assert_eq!(
        device,
        BiometricDevice {
            ip: "192.168.1.10".to_string(),
            mac: "Unknown".to_string(),
            open_ports: vec![4370],
            device_name: Some("ZK-100".to_string()),
            firmware_version: None,
            serial_number: None,
        }
    );
}

#[test]
fn host_refusing_all_ports_yields_no_record() {
    let (asked, device) = drive("192.168.1.11", &[], Some(info("ZK-100", "", "")));
    assert_eq!(
        asked,
        vec![
            ProbeAction::Probe { port: 4370, timeout_ms: 300 },
            ProbeAction::Probe { port: 4360, timeout_ms: 300 },
            ProbeAction::Done,
        ]
    );
    assert_eq!(device, None);
}

#[test]
fn host_with_only_web_ports_is_no_candidate() {
    let (_, device) = drive("192.168.1.12", &[80, 8080], None);
    assert_eq!(device, None);
}

#[test]
fn host_on_secondary_port_is_probed_again_on_primary() {
    let (asked, device) = drive("10.0.0.9", &[4360, 8080], None);
    assert_eq!(
        asked,
        vec![
            ProbeAction::Probe { port: 4370, timeout_ms: 300 },
            ProbeAction::Probe { port: 4360, timeout_ms: 300 },
            ProbeAction::Probe { port: 80, timeout_ms: 200 },
            ProbeAction::Probe { port: 8080, timeout_ms: 200 },
            ProbeAction::Probe { port: 4370, timeout_ms: 200 },
            ProbeAction::Identify { port: 4360 },
            ProbeAction::Done,
        ]
    );
    assert_eq!(
        device,
        Some(BiometricDevice {
            ip: "10.0.0.9".to_string(),
            mac: "Unknown".to_string(),
            open_ports: vec![4360, 8080],
            device_name: None,
            firmware_version: None,
            serial_number: None,
        })
    );
}

#[test]
fn open_ports_are_listed_in_probe_order() {
    let (_, device) = drive("10.0.0.9", &[80, 4360, 4370, 8080], Some(info("A", "B", "C")));
    let device = device.unwrap();
    assert_eq!(device.open_ports, vec![4370, 80, 8080, 4360]);
    assert_eq!(device.device_name, Some("A".to_string()));
    assert_eq!(device.firmware_version, Some("B".to_string()));
    assert_eq!(device.serial_number, Some("C".to_string()));
}

#[test]
fn late_primary_port_is_recorded_after_the_secondary() {
    // The primary port misses the first probe and answers the later one.
    let mut probe = HostProbe::new("10.0.0.9".to_string());
    probe.record_port(false);
    probe.record_port(true);
    probe.record_port(false);
    probe.record_port(false);
    assert_eq!(probe.next_action(), ProbeAction::Probe { port: 4370, timeout_ms: 200 });
    probe.record_port(true);
    assert_eq!(probe.next_action(), ProbeAction::Identify { port: 4360 });
    probe.record_identity(None);
    assert_eq!(probe.into_device().unwrap().open_ports, vec![4360, 4370]);
}

#[test]
fn failed_identification_does_not_disqualify() {
    let (_, device) = drive("10.0.0.9", &[4370], None);
    let device = device.unwrap();
    assert_eq!(device.device_name, None);
    assert_eq!(device.firmware_version, None);
    assert_eq!(device.serial_number, None);
    assert_eq!(device.mac, "Unknown");
}

#[test]
fn empty_identification_fields_are_absent() {
    let d = BiometricDevice::new("1.2.3.4".to_string(), vec![4370], Some(info("", "1.0", "")));
    assert_eq!(d.device_name, None);
    assert_eq!(d.firmware_version, Some("1.0".to_string()));
    assert_eq!(d.serial_number, None);
    let d = BiometricDevice::new("1.2.3.4".to_string(), vec![4370, 80], None);
    assert_eq!(d.device_name, None);
    assert_eq!(d.open_ports, vec![4370, 80]);
    assert_eq!(d.ip, "1.2.3.4");
}

#[test]
fn unfinished_probe_has_no_device() {
    let mut probe = HostProbe::new("10.0.0.9".to_string());
    assert!(!probe.is_done());
    probe.record_port(true);
    assert!(!probe.is_done());
    assert_eq!(probe.into_device(), None);
}

#[test]
fn reports_that_were_not_asked_for_change_nothing() {
    let mut probe = HostProbe::new("10.0.0.9".to_string());
    probe.record_identity(Some(info("X", "", "")));
    assert_eq!(probe.next_action(), ProbeAction::Probe { port: 4370, timeout_ms: 300 });
    probe.record_port(false);
    probe.record_port(false);
    assert_eq!(probe.next_action(), ProbeAction::Done);
    probe.record_port(true);
    probe.record_identity(Some(info("X", "", "")));
    assert_eq!(probe.next_action(), ProbeAction::Done);
    assert_eq!(probe.into_device(), None);
}

#[test]
fn gate_admits_up_to_its_ceiling() {
    let mut gate = AdmissionGate::new(2);
    assert_eq!(gate.ceiling(), 2);
    assert_eq!(gate.in_flight(), 0);
    assert!(gate.try_acquire());
    assert!(gate.try_acquire());
    assert!(!gate.try_acquire());
    assert_eq!(gate.in_flight(), 2);
    gate.release();
    assert_eq!(gate.in_flight(), 1);
    assert!(gate.try_acquire());
    assert!(!gate.try_acquire());
    gate.release();
    gate.release();
    gate.release();
    assert_eq!(gate.in_flight(), 0);
}

#[test]
fn gate_with_zero_ceiling_admits_nothing() {
    let mut gate = AdmissionGate::new(0);
    assert!(!gate.try_acquire());
    assert_eq!(gate.in_flight(), 0);
}

#[test]
fn sweep_of_254_hosts_never_exceeds_the_ceiling() {
    // Each host takes a number of ticks that depends on its index; hosts are
    // started whenever the plan allows and reported when their time is up.
    let mut plan = ScanPlan::for_local_address([192, 168, 1, 50]);
    let mut running: Vec<(u64, String)> = Vec::new();
    let mut started = Vec::new();
    let mut max_in_flight = 0;
    let mut now: u64 = 0;
    while !plan.is_finished() {
        while let Some(host) = plan.next_host() {
            let latency = 1 + (started.len() as u64 * 7) % 13;
            running.push((now + latency, host.clone()));
            started.push(host);
            assert_eq!(plan.in_flight(), running.len());
            assert!(plan.in_flight() <= 100);
        }
        if plan.in_flight() > max_in_flight {
            max_in_flight = plan.in_flight();
        }
        now += 1;
        let mut i = 0;
        while i < running.len() {
            if running[i].0 <= now {
                let (_, host) = running.remove(i);
                plan.complete(nothing_at(&host));
            } else {
                i += 1;
            }
        }
    }
    assert_eq!(max_in_flight, 100);
    assert_eq!(started.len(), 254);
    assert_eq!(started[0], "192.168.1.1");
    assert_eq!(started[253], "192.168.1.254");
    assert_eq!(plan.next_host(), None);
    assert_eq!(plan.into_devices(), vec![]);
}

#[test]
fn sweep_keeps_records_in_order_of_completion() {
    let targets = vec!["a".to_string(), "b".to_string(), "c".to_string()];
    let mut plan = ScanPlan::new(targets, 2);
    assert_eq!(plan.next_host(), Some("a".to_string()));
    assert_eq!(plan.next_host(), Some("b".to_string()));
    assert_eq!(plan.next_host(), None);
    assert_eq!(plan.in_flight(), 2);
    let b = BiometricDevice::new("b".to_string(), vec![4370], None);
    let a = BiometricDevice::new("a".to_string(), vec![4360], None);
    plan.complete(terminal_at("b", 4370));
    assert_eq!(plan.next_host(), Some("c".to_string()));
    assert_eq!(plan.next_host(), None);
    assert!(!plan.is_finished());
    plan.complete(nothing_at("c"));
    plan.complete(terminal_at("a", 4360));
    assert!(plan.is_finished());
    assert_eq!(plan.in_flight(), 0);
    assert_eq!(plan.into_devices(), vec![b, a]);
}

#[test]
fn completion_with_nothing_in_flight_is_ignored() {
    let mut plan = ScanPlan::new(vec!["a".to_string()], 5);
    plan.complete(terminal_at("a", 4370));
    assert_eq!(plan.in_flight(), 0);
    assert!(!plan.is_finished());
    assert_eq!(plan.next_host(), Some("a".to_string()));
    plan.complete(nothing_at("a"));
    assert!(plan.is_finished());
    assert_eq!(plan.into_devices(), vec![]);
}

#[test]
fn report_on_a_host_that_is_no_target_is_ignored() {
    let mut plan = ScanPlan::new(vec!["a".to_string(), "b".to_string()], 5);
    assert_eq!(plan.next_host(), Some("a".to_string()));
    plan.complete(terminal_at("x", 4370));
    plan.complete(terminal_at("b", 4370));
    assert_eq!(plan.in_flight(), 1);
    plan.complete(terminal_at("a", 4370));
    assert_eq!(plan.in_flight(), 0);
    assert_eq!(plan.next_host(), Some("b".to_string()));
    plan.complete(nothing_at("b"));
    assert!(plan.is_finished());
    let devices = plan.into_devices();
    assert_eq!(devices.len(), 1);
    assert_eq!(devices[0].ip, "a");
}

#[test]
fn no_host_has_two_records() {
    let mut plan = ScanPlan::new(vec!["a".to_string(), "b".to_string()], 5);
    assert_eq!(plan.next_host(), Some("a".to_string()));
    assert_eq!(plan.next_host(), Some("b".to_string()));
    plan.complete(terminal_at("a", 4370));
    plan.complete(terminal_at("a", 4360));
    assert_eq!(plan.in_flight(), 1);
    assert!(!plan.is_finished());
    plan.complete(terminal_at("b", 4370));
    assert!(plan.is_finished());
    let devices = plan.into_devices();
    assert_eq!(devices.len(), 2);
    assert_eq!(devices[0].ip, "a");
    assert_eq!(devices[0].open_ports, vec![4370]);
    assert_eq!(devices[1].ip, "b");
}

#[test]
fn unfinished_probing_is_not_taken() {
    let mut plan = ScanPlan::new(vec!["a".to_string()], 5);
    assert_eq!(plan.next_host(), Some("a".to_string()));
    let mut probe = HostProbe::new("a".to_string());
    probe.record_port(true);
    plan.complete(probe);
    assert_eq!(plan.in_flight(), 1);
    assert!(!plan.is_finished());
}

#[test]
fn abandoned_host_is_done_without_record() {
    let mut plan = ScanPlan::new(vec!["a".to_string(), "b".to_string()], 1);
    assert_eq!(plan.next_host(), Some("a".to_string()));
    plan.abandon(&"b".to_string());
    assert_eq!(plan.in_flight(), 1);
    plan.abandon(&"a".to_string());
    assert_eq!(plan.in_flight(), 0);
    plan.abandon(&"a".to_string());
    assert_eq!(plan.next_host(), Some("b".to_string()));
    plan.complete(terminal_at("b", 4360));
    assert!(plan.is_finished());
    let devices = plan.into_devices();
    assert_eq!(devices.len(), 1);
    assert_eq!(devices[0].ip, "b");
}

#[test]
fn equal_addresses_are_settled_in_the_order_of_starting() {
    let mut plan = ScanPlan::new(vec!["a".to_string(), "a".to_string()], 5);
    assert_eq!(plan.next_host(), Some("a".to_string()));
    assert_eq!(plan.next_host(), Some("a".to_string()));
    plan.complete(terminal_at("a", 4370));
    assert_eq!(plan.in_flight(), 1);
    plan.complete(nothing_at("a"));
    assert!(plan.is_finished());
    assert_eq!(plan.into_devices().len(), 1);
}

#[test]
fn sweep_of_simulated_subnet_finds_the_one_device() {
    let mut plan = ScanPlan::for_local_address([192, 168, 1, 50]);
    let mut pending = Vec::new();
    while !plan.is_finished() {
        while let Some(host) = plan.next_host() {
            pending.push(host);
        }
        for host in pending.drain(..) {
            let (open, identity): (&[u16], _) = if host == "192.168.1.10" {
                (&[4370], Some(info("ZK-100", "", "")))
            } else {
                (&[], None)
            };
            let (_, probe) = drive_probe(&host, open, identity);
            plan.complete(probe);
        }
    }
    let devices = plan.into_devices();
    assert_eq!(devices.len(), 1);
    assert_eq!(devices[0].ip, "192.168.1.10");
    assert!(devices[0].open_ports.contains(&4370));
    assert_eq!(devices[0].device_name, Some("ZK-100".to_string()));
}

/// A terminal on the simulated subnet: it answers the connect request and
/// the query for its name, and knows no other query.
fn simulated_terminal_answers(name: &str) -> Vec<Vec<u8>> {
    fn device_frame(command: u16, payload: &[u8]) -> Vec<u8> {
        let mut f = vec![0x50, 0x50, 0, 0];
        f.extend_from_slice(&command.to_le_bytes());
        f.extend_from_slice(&(payload.len() as u16).to_le_bytes());
        f.extend_from_slice(payload);
        f
    }
    let mut name_answer = b"~DeviceName=".to_vec();
    name_answer.extend_from_slice(name.as_bytes());
    name_answer.push(0);
    vec![
        device_frame(5000, &[]),
        device_frame(5000, &name_answer),
        device_frame(5001, &[]),
        device_frame(5001, &[]),
    ]
}

fn identify_over_simulated_wire(answers: &[Vec<u8>]) -> Option<DeviceInfo> {
    let mut exchange = IdentifyExchange::new();
    let mut written = 0;
    let mut stream: Vec<u8> = Vec::new();
    let mut at = 0;
    loop {
        match exchange.request() {
            IoRequest::Connect { .. } => exchange.connected(),
            IoRequest::Write(_) => {
                if written < answers.len() {
                    stream.extend_from_slice(&answers[written]);
                }
                written += 1;
                exchange.written();
            }
            IoRequest::Read(n) => {
                if at + n > stream.len() {
                    exchange.io_failed();
                } else {
                    exchange.received(&stream[at..at + n]);
                    at += n;
                }
            }
            IoRequest::Done => break,
        }
    }
    exchange.into_outcome()
}

#[test]
fn sweep_from_192_168_1_50_finds_terminal_at_192_168_1_10() {
    let mut plan = ScanPlan::for_local_address([192, 168, 1, 50]);
    let mut in_flight: Vec<String> = Vec::new();
    while !plan.is_finished() {
        while let Some(host) = plan.next_host() {
            in_flight.push(host);
        }
        assert!(in_flight.len() <= 100);
        // the unit that was started last is done first
        let host = in_flight.pop().unwrap();
        let mut probe = HostProbe::new(host.clone());
        loop {
            match probe.next_action() {
                ProbeAction::Probe { port, .. } => {
                    probe.record_port(host == "192.168.1.10" && port == 4370)
                }
                ProbeAction::Identify { port } => {
                    assert_eq!(port, 4370);
                    let answers = simulated_terminal_answers("ZK-100");
                    probe.record_identity(identify_over_simulated_wire(&answers));
                }
                ProbeAction::Done => break,
            }
        }
        plan.complete(probe);
    }
    let devices = plan.into_devices();
    assert_eq!(
        devices,
        vec![BiometricDevice {
            ip: "192.168.1.10".to_string(),
            mac: "Unknown".to_string(),
            open_ports: vec![4370],
            device_name: Some("ZK-100".to_string()),
            firmware_version: None,
            serial_number: None,
        }]
    );
}
