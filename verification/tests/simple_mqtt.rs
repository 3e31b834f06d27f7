use hms2mqtt::protos::{HMSStateResponse, InverterState, PortState};
use hms2mqtt::simple_mqtt::{publications, MqttWrapper, Payload, Publication, QoS, SimpleMqtt};
use std::cell::RefCell;
use std::rc::Rc;

type Log = Rc<RefCell<Vec<Publication>>>;

struct Broker {
    log: Log,
    suffixes: Rc<RefCell<Vec<String>>>,
    refuse: bool,
}

struct Client {
    log: Log,
    refuse: bool,
}

impl MqttWrapper for Client {
    type Config = Broker;
    type Failure = String;

    fn new(config: &Broker, suffix: &str) -> Self {
        config.suffixes.borrow_mut().push(suffix.to_string());
        Client { log: config.log.clone(), refuse: config.refuse }
    }

    fn publish(
        &mut self,
        topic: String,
        qos: QoS,
        retain: bool,
        payload: Payload,
    ) -> Result<(), String> {
        self.log.borrow_mut().push(Publication { topic, qos, retain, payload });
        if self.refuse {
            Err("refused".to_string())
        } else {
            Ok(())
        }
    }
}

fn broker(refuse: bool) -> Broker {
    Broker {
        log: Rc::new(RefCell::new(Vec::new())),
        suffixes: Rc::new(RefCell::new(Vec::new())),
        refuse,
    }
}

fn plant() -> HMSStateResponse {
    HMSStateResponse {
        dtu_sn: "dtu".to_string(),
        time: 1_789_712_893,
        pv_current_power: 1_285,
        pv_daily_yield: 52,
        device_nub: 2,
        pv_nub: 2,
        inverter_state: vec![
            InverterState {
                grid_voltage: 2_366,
                grid_freq: 4_999,
                temperature: -183,
                grid_current: 54,
                power_factor: 1_000,
                ..Default::default()
            },
            InverterState { grid_voltage: 1, ..Default::default() },
        ],
        port_state: vec![
            PortState {
                pv_port: 1,
                pv_vol: 430,
                pv_cur: 162,
                pv_power: 698,
                pv_energy_total: 1_295_701,
                pv_daily_yield: 27,
                ..Default::default()
            },
            PortState { pv_port: 2, pv_vol: 421, ..Default::default() },
        ],
    }
}

fn text(topic: &str, text: &str) -> Publication {
    Publication {
        topic: topic.to_string(),
        qos: QoS::AtMostOnce,
        retain: true,
        payload: Payload::Text(text.to_string()),
    }
}

fn ratio(topic: &str, numerator: i32, denominator: u16) -> Publication {
    Publication {
        topic: topic.to_string(),
        qos: QoS::AtMostOnce,
        retain: true,
        payload: Payload::Ratio { numerator, denominator },
    }
}

fn expected_for_plant(local_time: &str) -> Vec<Publication> {
    vec![
        text("hms800wt2/inverter_local_time", local_time),
        ratio("hms800wt2/pv_current_power", 1_285, 10),
        text("hms800wt2/pv_daily_yield", "52"),
        ratio("hms800wt2/pv_grid_voltage", 2_366, 10),
        ratio("hms800wt2/pv_grid_freq", 4_999, 100),
        ratio("hms800wt2/pv_inv_temperature", -183, 10),
        ratio("hms800wt2/pv_inv_current", 54, 100),
        ratio("hms800wt2/pv_inv_power_factor", 1_000, 1000),
        ratio("hms800wt2/pv_port1_voltage", 430, 10),
        ratio("hms800wt2/pv_port1_curr", 162, 100),
        ratio("hms800wt2/pv_port1_power", 698, 10),
        ratio("hms800wt2/pv_port1_energy", 1_295_701, 1),
        ratio("hms800wt2/pv_port1_daily_yield", 27, 1),
        ratio("hms800wt2/pv_port2_voltage", 421, 10),
        ratio("hms800wt2/pv_port2_curr", 0, 100),
        ratio("hms800wt2/pv_port2_power", 0, 10),
        ratio("hms800wt2/pv_port2_energy", 0, 1),
        ratio("hms800wt2/pv_port2_daily_yield", 0, 1),
    ]
}

#[test]
fn publications_hold_every_reading_in_order() {
    assert_eq!(
        publications(&plant(), "now".to_string()),
        expected_for_plant("now")
    );
}

#[test]
fn a_plant_without_inverters_and_ports_has_three_publications() {
    let state = HMSStateResponse { pv_daily_yield: -3, ..Default::default() };
    assert_eq!(
        publications(&state, String::new()),
        vec![
            text("hms800wt2/inverter_local_time", ""),
            ratio("hms800wt2/pv_current_power", 0, 10),
            text("hms800wt2/pv_daily_yield", "-3"),
        ]
    );
}

#[test]
fn port_numbers_are_written_as_they_are() {
    let state = HMSStateResponse {
        port_state: vec![PortState { pv_port: -12, ..Default::default() }],
        ..Default::default()
    };
    let topics: Vec<String> = publications(&state, String::new())
        .into_iter()
        .map(|p| p.topic)
        .collect();
    assert_eq!(topics[3], "hms800wt2/pv_port-12_voltage");
    assert_eq!(topics[7], "hms800wt2/pv_port-12_daily_yield");
}

fn local_time_of(publication: &Publication) -> String {
    match &publication.payload {
        Payload::Text(text) => text.clone(),
        Payload::Ratio { .. } => panic!("the local time is text"),
    }
}

#[test]
fn a_state_is_given_to_the_client_in_full() {
    let config = broker(false);
    let mut mqtt = SimpleMqtt::<Client>::new(&config);
    assert_eq!(*config.suffixes.borrow(), ["-sm"]);
    assert!(config.log.borrow().is_empty());

    mqtt.publish(&plant());
    let given = config.log.borrow().clone();
    let local_time = local_time_of(&given[0]);
    assert_eq!(given, expected_for_plant(&local_time));
    let shown = chrono::DateTime::from_timestamp(1_789_712_893, 0)
        .expect("a valid time")
        .with_timezone(&chrono::Local);
    assert_eq!(local_time, shown.format("%Y-%m-%d %H:%M:%S.%f").to_string());
    assert!(local_time.starts_with("2026-09-1"));
    assert!(local_time.ends_with(".000000000"));
}

#[test]
fn a_client_that_refuses_is_still_given_everything() {
    let config = broker(true);
    let mut mqtt = SimpleMqtt::<Client>::new(&config);
    mqtt.publish(&plant());
    mqtt.publish(&plant());
    assert_eq!(config.log.borrow().len(), 36);
}

#[test]
fn a_time_before_the_epoch_counts_as_the_epoch() {
    let config = broker(false);
    let mut mqtt = SimpleMqtt::<Client>::new(&config);
    mqtt.publish(&HMSStateResponse { time: i32::MIN, ..Default::default() });
    mqtt.publish(&HMSStateResponse { time: 0, ..Default::default() });
    let given = config.log.borrow().clone();
    assert_eq!(local_time_of(&given[0]), local_time_of(&given[3]));
    let year: String = local_time_of(&given[0]).chars().take(4).collect();
    assert!(year == "1970" || year == "1969");
}
