//! Telemetry on an MQTT broker: one retained message for each reading.

use crate::clock::{calendar_text, local_time_at};
use crate::protos::{HMSStateResponse, InverterState, PortState, Telemetry};
use crate::text::{push_signed_decimal, signed_decimal, signed_decimal_string};
use vstd::prelude::*;

verus! {

/// How hard a broker tries to deliver a message.
#[derive(Clone, Copy, Debug, PartialEq, Eq, Structural)]
pub enum QoS {
    AtMostOnce,
    AtLeastOnce,
    ExactlyOnce,
}

/// What a message says.
#[derive(Clone, Debug, PartialEq, Eq)]
pub enum Payload {
    Text(String),
    /// A reading in fractions of its unit. It is sent as the quotient.
    Ratio { numerator: i32, denominator: u16 },
}

/// The contents of a [`Payload`].
pub enum Content {
    Text(Seq<char>),
    Ratio { numerator: i32, denominator: u16 },
}

impl View for Payload {
    type V = Content;

    open spec fn view(&self) -> Content {
        match self {
            Payload::Text(text) => Content::Text(text@),
            Payload::Ratio { numerator, denominator } => Content::Ratio {
                numerator: *numerator,
                denominator: *denominator,
            },
        }
    }
}

/// A message to the broker.
#[derive(Clone, Debug, PartialEq, Eq)]
pub struct Publication {
    pub topic: String,
    pub qos: QoS,
    pub retain: bool,
    pub payload: Payload,
}

/// The contents of a [`Publication`].
#[verifier::ext_equal]
pub struct Post {
    pub topic: Seq<char>,
    pub qos: QoS,
    pub retain: bool,
    pub content: Content,
}

impl View for Publication {
    type V = Post;

    open spec fn view(&self) -> Post {
        Post {
            topic: self.topic@,
            qos: self.qos,
            retain: self.retain,
            content: self.payload@,
        }
    }
}

/// A client of an MQTT broker.
pub trait MqttWrapper: Sized {
    /// How to reach the broker.
    type Config;

    /// Why a message was not taken.
    type Failure;

    /// A client under a name that ends in `suffix`.
    fn new(config: &Self::Config, suffix: &str) -> Self;

    /// Gives a message to the client.
    fn publish(&mut self, topic: String, qos: QoS, retain: bool, payload: Payload) -> Result<
        (),
        Self::Failure,
    >;
}

/// Whether `client` is what the client's own constructor makes of a
/// configuration and a suffix.
pub open spec fn made_by<MQTT: MqttWrapper>(
    config: &MQTT::Config,
    suffix: &str,
    client: MQTT,
) -> bool {
    call_ensures(MQTT::new, (config, suffix), client)
}

/// The retained message of one reading.
pub open spec fn reading(topic: Seq<char>, content: Content) -> Post {
    Post { topic, qos: QoS::AtMostOnce, retain: true, content }
}

/// A reading in fractions of its unit.
pub open spec fn ratio(topic: Seq<char>, numerator: i32, denominator: u16) -> Post {
    reading(topic, Content::Ratio { numerator, denominator })
}

/// The readings of the whole plant.
pub open spec fn plant_posts(state: Telemetry, local_time: Seq<char>) -> Seq<Post> {
    seq![
        reading("hms800wt2/inverter_local_time"@, Content::Text(local_time)),
        ratio("hms800wt2/pv_current_power"@, state.pv_current_power, 10),
        reading(
            "hms800wt2/pv_daily_yield"@,
            Content::Text(signed_decimal(state.pv_daily_yield as int)),
        ),
    ]
}

/// The readings on the grid side of an inverter.
pub open spec fn grid_posts(inverter: InverterState) -> Seq<Post> {
    seq![
        ratio("hms800wt2/pv_grid_voltage"@, inverter.grid_voltage, 10),
        ratio("hms800wt2/pv_grid_freq"@, inverter.grid_freq, 100),
        ratio("hms800wt2/pv_inv_temperature"@, inverter.temperature, 10),
        ratio("hms800wt2/pv_inv_current"@, inverter.grid_current, 100),
        ratio("hms800wt2/pv_inv_power_factor"@, inverter.power_factor, 1000),
    ]
}

/// What the topics of a panel input start with.
pub open spec fn port_prefix(port: int) -> Seq<char> {
    "hms800wt2/pv_port"@ + signed_decimal(port)
}

/// The readings of a panel input.
pub open spec fn port_posts(port: PortState) -> Seq<Post> {
    let prefix = port_prefix(port.pv_port as int);
    seq![
        ratio(prefix + "_voltage"@, port.pv_vol, 10),
        ratio(prefix + "_curr"@, port.pv_cur, 100),
        ratio(prefix + "_power"@, port.pv_power, 10),
        ratio(prefix + "_energy"@, port.pv_energy_total, 1),
        ratio(prefix + "_daily_yield"@, port.pv_daily_yield, 1),
    ]
}

/// The readings of all panel inputs.
pub open spec fn all_port_posts(ports: Seq<PortState>) -> Seq<Post>
    decreases ports.len(),
{
    if ports.len() == 0 {
        Seq::empty()
    } else {
        all_port_posts(ports.drop_last()) + port_posts(ports.last())
    }
}

/// The messages for one state of the plant: the whole plant, the grid side of
/// the first inverter, and every panel input.
pub open spec fn posted(state: Telemetry, local_time: Seq<char>) -> Seq<Post> {
    plant_posts(state, local_time) + (if state.inverter_state.len() > 0 {
        grid_posts(state.inverter_state[0])
    } else {
        Seq::empty()
    }) + all_port_posts(state.port_state)
}

/// The seconds after the Unix epoch that a time stands for; one before it
/// counts as the epoch itself.
pub open spec fn shown_seconds(time: i32) -> int {
    if time < 0 {
        0
    } else {
        time as int
    }
}

/// The messages for one state of the plant where the local time is `offset`
/// seconds ahead of UTC.
pub open spec fn posted_at_offset(state: Telemetry, offset: int) -> Seq<Post> {
    posted(state, calendar_text("%Y-%m-%d %H:%M:%S.%f"@, shown_seconds(state.time) + offset))
}

/// Messages by their contents.
pub open spec fn posts(publications: Seq<Publication>) -> Seq<Post> {
    publications.map_values(|p: Publication| p@)
}

fn push_reading(out: &mut Vec<Publication>, topic: String, payload: Payload)
    ensures
        posts(final(out)@) == posts(old(out)@).push(reading(topic@, payload@)),
{
    out.push(Publication { topic, qos: QoS::AtMostOnce, retain: true, payload });
    assert(posts(out@) == posts(old(out)@).push(reading(topic@, payload@)));
}

fn push_ratio(out: &mut Vec<Publication>, topic: &str, numerator: i32, denominator: u16)
    ensures
        posts(final(out)@) == posts(old(out)@).push(ratio(topic@, numerator, denominator)),
{
    push_reading(out, String::from_str(topic), Payload::Ratio { numerator, denominator });
}

fn push_port_ratio(
    out: &mut Vec<Publication>,
    port: i32,
    reading: &str,
    numerator: i32,
    denominator: u16,
)
    ensures
        posts(final(out)@) == posts(old(out)@).push(
            ratio(port_prefix(port as int) + reading@, numerator, denominator),
        ),
{
    let mut topic = String::from_str("hms800wt2/pv_port");
    push_signed_decimal(&mut topic, port as i64);
    topic.append(reading);
    push_ratio(out, topic.as_str(), numerator, denominator);
}

fn push_port(out: &mut Vec<Publication>, port: &PortState)
    ensures
        posts(final(out)@) == posts(old(out)@) + port_posts(*port),
{
    push_port_ratio(out, port.pv_port, "_voltage", port.pv_vol, 10);
    push_port_ratio(out, port.pv_port, "_curr", port.pv_cur, 100);
    push_port_ratio(out, port.pv_port, "_power", port.pv_power, 10);
    push_port_ratio(out, port.pv_port, "_energy", port.pv_energy_total, 1);
    push_port_ratio(out, port.pv_port, "_daily_yield", port.pv_daily_yield, 1);
    assert(posts(out@) == posts(old(out)@) + port_posts(*port));
}

/// The messages for one state of the plant, at a local time.
pub fn publications(hms_state: &HMSStateResponse, local_time: String) -> (list: Vec<Publication>)
    ensures
        posts(list@) == posted(hms_state@, local_time@),
{
    let mut list: Vec<Publication> = Vec::new();
    push_reading(
        &mut list,
        String::from_str("hms800wt2/inverter_local_time"),
        Payload::Text(local_time),
    );
    push_ratio(&mut list, "hms800wt2/pv_current_power", hms_state.pv_current_power, 10);
    push_reading(
        &mut list,
        String::from_str("hms800wt2/pv_daily_yield"),
        Payload::Text(signed_decimal_string(hms_state.pv_daily_yield as i64)),
    );
    assert(posts(list@) == plant_posts(hms_state@, local_time@));

    if hms_state.inverter_state.len() > 0 {
        let inverter = hms_state.inverter_state[0];
        push_ratio(&mut list, "hms800wt2/pv_grid_voltage", inverter.grid_voltage, 10);
        push_ratio(&mut list, "hms800wt2/pv_grid_freq", inverter.grid_freq, 100);
        push_ratio(&mut list, "hms800wt2/pv_inv_temperature", inverter.temperature, 10);
        push_ratio(&mut list, "hms800wt2/pv_inv_current", inverter.grid_current, 100);
        push_ratio(&mut list, "hms800wt2/pv_inv_power_factor", inverter.power_factor, 1000);
        assert(posts(list@) == plant_posts(hms_state@, local_time@) + grid_posts(inverter));
    }
    let ghost before = posts(list@);
    assert(posts(list@) == before + all_port_posts(hms_state.port_state@.take(0)));
    for i in 0..hms_state.port_state.len()
        invariant
            posts(list@) == before + all_port_posts(hms_state.port_state@.take(i as int)),
    {
        push_port(&mut list, &hms_state.port_state[i]);
        proof {
            let ports = hms_state.port_state@.take(i + 1);
            assert(ports.drop_last() == hms_state.port_state@.take(i as int));
            assert(posts(list@) == before + all_port_posts(ports));
        }
    }
    assert(hms_state.port_state@.take(hms_state.port_state@.len() as int) == hms_state.port_state@);
    assert(posts(list@) == posted(hms_state@, local_time@));
    list
}

/// Whether a message is retained, delivered at most once, and under the common
/// prefix of all topics.
pub open spec fn is_reading(post: Post) -> bool {
    &&& post.retain
    &&& post.qos == QoS::AtMostOnce
    &&& "hms800wt2/"@.is_prefix_of(post.topic)
}

proof fn lemma_plant_posts(state: Telemetry, local_time: Seq<char>)
    ensures
        forall|i: int|
            0 <= i < plant_posts(state, local_time).len() ==> is_reading(
                #[trigger] plant_posts(state, local_time)[i],
            ),
{
    reveal_strlit("hms800wt2/");
    reveal_strlit("hms800wt2/inverter_local_time");
    reveal_strlit("hms800wt2/pv_current_power");
    reveal_strlit("hms800wt2/pv_daily_yield");
}

proof fn lemma_grid_posts(inverter: InverterState)
    ensures
        forall|i: int|
            0 <= i < grid_posts(inverter).len() ==> is_reading(#[trigger] grid_posts(inverter)[i]),
{
    reveal_strlit("hms800wt2/");
    reveal_strlit("hms800wt2/pv_grid_voltage");
    reveal_strlit("hms800wt2/pv_grid_freq");
    reveal_strlit("hms800wt2/pv_inv_temperature");
    reveal_strlit("hms800wt2/pv_inv_current");
    reveal_strlit("hms800wt2/pv_inv_power_factor");
}

proof fn lemma_all_port_posts(ports: Seq<PortState>)
    ensures
        all_port_posts(ports).len() == 5 * ports.len(),
        forall|i: int|
            0 <= i < all_port_posts(ports).len() ==> is_reading(#[trigger] all_port_posts(ports)[i]),
        forall|k: int|
            0 <= k < ports.len() ==> all_port_posts(ports).subrange(5 * k, 5 * k + 5) == port_posts(
                #[trigger] ports[k],
            ),
    decreases ports.len(),
{
    if ports.len() > 0 {
        reveal_strlit("hms800wt2/");
        reveal_strlit("hms800wt2/pv_port");
        let front = ports.drop_last();
        lemma_all_port_posts(front);
        assert forall|k: int| 0 <= k < ports.len() implies all_port_posts(ports).subrange(
            5 * k,
            5 * k + 5,
        ) == port_posts(#[trigger] ports[k]) by {
            if k < front.len() {
                assert(ports[k] == front[k]);
                assert(all_port_posts(ports).subrange(5 * k, 5 * k + 5) == all_port_posts(
                    front,
                ).subrange(5 * k, 5 * k + 5));
            }
        }
    }
}

/// Each state is published in full: three messages of the plant, five of the
/// grid side where there is an inverter, then five of each panel input in
/// order; all of them retained readings under one prefix.
pub proof fn law_every_reading_is_posted(state: Telemetry, local_time: Seq<char>)
    ensures
        ({
            let all = posted(state, local_time);
            let head: int = if state.inverter_state.len() > 0 {
                8
            } else {
                3
            };
            &&& all.len() == head + 5 * state.port_state.len()
            &&& forall|i: int| 0 <= i < all.len() ==> is_reading(#[trigger] all[i])
            &&& forall|k: int|
                0 <= k < state.port_state.len() ==> all.subrange(head + 5 * k, head + 5 * k + 5)
                    == port_posts(#[trigger] state.port_state[k])
        }),
{
    lemma_plant_posts(state, local_time);
    if state.inverter_state.len() > 0 {
        lemma_grid_posts(state.inverter_state[0]);
    }
    lemma_all_port_posts(state.port_state);
    let all = posted(state, local_time);
    let head: int = if state.inverter_state.len() > 0 {
        8
    } else {
        3
    };
    assert forall|i: int| 0 <= i < all.len() implies is_reading(#[trigger] all[i]) by {
        if i < 3 {
            assert(all[i] == plant_posts(state, local_time)[i]);
        } else if i < head {
            assert(all[i] == grid_posts(state.inverter_state[0])[i - 3]);
        } else {
            assert(all[i] == all_port_posts(state.port_state)[i - head]);
        }
    }
    assert forall|k: int| 0 <= k < state.port_state.len() implies all.subrange(
        head + 5 * k,
        head + 5 * k + 5,
    ) == port_posts(#[trigger] state.port_state[k]) by {
        assert(all.subrange(head + 5 * k, head + 5 * k + 5) == all_port_posts(
            state.port_state,
        ).subrange(5 * k, 5 * k + 5));
    }
}

/// Publishes telemetry without a particular schema.
pub struct SimpleMqtt<MQTT: MqttWrapper> {
    client: MQTT,
}

impl<MQTT: MqttWrapper> SimpleMqtt<MQTT> {
    /// The client behind the publisher.
    pub closed spec fn client(self) -> MQTT {
        self.client
    }

    /// A publisher with a client of its own.
    pub fn new(config: &MQTT::Config) -> (mqtt: Self)
        ensures
            exists|suffix: &str|
                suffix@ == "-sm"@ && #[trigger] made_by(config, suffix, mqtt.client()),
    {
        let suffix = "-sm";
        let client = MQTT::new(config, suffix);
        let mqtt = SimpleMqtt { client };
        assert(suffix@ == "-sm"@ && made_by(config, suffix, mqtt.client()));
        mqtt
    }

    /// Publishes one state of the plant. Every message is given to the client,
    /// in order and whatever became of those before: `clients` are the states
    /// that the client goes through.
    pub fn publish(&mut self, hms_state: &HMSStateResponse)
        ensures
            exists|offset: int, list: Seq<Publication>, clients: Seq<MQTT>|
                #![trigger posted_at_offset(hms_state@, offset), posts(list), clients.first()]
                {
                    &&& -86_400 < offset < 86_400
                    &&& posts(list) == posted_at_offset(hms_state@, offset)
                    &&& clients.len() == list.len() + 1
                    &&& clients.first() == old(self).client()
                    &&& clients.last() == final(self).client()
                    &&& forall|i: int|
                        #![trigger list[i]]
                        0 <= i < list.len() ==> exists|client: &mut MQTT, r: Result<(), MQTT::Failure>|
                            *client == clients[i] && *final(client) == clients[i + 1]
                                && #[trigger] call_ensures(
                                MQTT::publish,
                                (
                                    client,
                                    list[i].topic,
                                    list[i].qos,
                                    list[i].retain,
                                    list[i].payload,
                                ),
                                r,
                            )
                },
    {
        let seconds: u64 = if hms_state.time < 0 {
            0
        } else {
            hms_state.time as u64
        };
        let (offset, local_time) = local_time_at("%Y-%m-%d %H:%M:%S.%f", seconds);
        let list = publications(hms_state, local_time);
        let ghost all = list@;
        let ghost mut clients: Seq<MQTT> = seq![self.client];
        for publication in iter: list.into_iter()
            invariant
                iter.seq() == all,
                clients.len() == iter.index() + 1,
                clients.first() == old(self).client(),
                clients.last() == self.client,
                forall|i: int|
                    #![trigger all[i]]
                    0 <= i < iter.index() ==> exists|client: &mut MQTT, r: Result<(), MQTT::Failure>|
                        *client == clients[i] && *final(client) == clients[i + 1]
                            && #[trigger] call_ensures(
                            MQTT::publish,
                            (
                                client,
                                all[i].topic,
                                all[i].qos,
                                all[i].retain,
                                all[i].payload,
                            ),
                            r,
                        ),
        {
            let _ = self.client.publish(
                publication.topic,
                publication.qos,
                publication.retain,
                publication.payload,
            );
            proof {
                clients = clients.push(self.client);
            }
        }
        assert(posts(all) == posted_at_offset(hms_state@, offset as int));
    }
}

/// What is said of the whole plant: the local time and the daily yield as text,
/// the power in tenths; each retained and sent at most once.
pub proof fn law_plant_readings_are_posted(state: Telemetry, local_time: Seq<char>)
    ensures
        ({
            let all = posted(state, local_time);
            &&& all.len() >= 3
            &&& all[0] == (Post {
                topic: "hms800wt2/inverter_local_time"@,
                qos: QoS::AtMostOnce,
                retain: true,
                content: Content::Text(local_time),
            })
            &&& all[1] == (Post {
                topic: "hms800wt2/pv_current_power"@,
                qos: QoS::AtMostOnce,
                retain: true,
                content: Content::Ratio { numerator: state.pv_current_power, denominator: 10 },
            })
            &&& all[2] == (Post {
                topic: "hms800wt2/pv_daily_yield"@,
                qos: QoS::AtMostOnce,
                retain: true,
                content: Content::Text(signed_decimal(state.pv_daily_yield as int)),
            })
        }),
{
}

/// What is said of the grid side where there is an inverter: voltage and
/// temperature of the first one in tenths, frequency and current in hundredths
/// and the power factor in thousandths, each with its own sign.
pub proof fn law_grid_readings_are_posted(state: Telemetry, local_time: Seq<char>)
    requires
        state.inverter_state.len() > 0,
    ensures
        ({
            let all = posted(state, local_time);
            let inverter = state.inverter_state[0];
            &&& all.len() >= 8
            &&& all[3] == (Post {
                topic: "hms800wt2/pv_grid_voltage"@,
                qos: QoS::AtMostOnce,
                retain: true,
                content: Content::Ratio { numerator: inverter.grid_voltage, denominator: 10 },
            })
            &&& all[4] == (Post {
                topic: "hms800wt2/pv_grid_freq"@,
                qos: QoS::AtMostOnce,
                retain: true,
                content: Content::Ratio { numerator: inverter.grid_freq, denominator: 100 },
            })
            &&& all[5] == (Post {
                topic: "hms800wt2/pv_inv_temperature"@,
                qos: QoS::AtMostOnce,
                retain: true,
                content: Content::Ratio { numerator: inverter.temperature, denominator: 10 },
            })
            &&& all[6] == (Post {
                topic: "hms800wt2/pv_inv_current"@,
                qos: QoS::AtMostOnce,
                retain: true,
                content: Content::Ratio { numerator: inverter.grid_current, denominator: 100 },
            })
            &&& all[7] == (Post {
                topic: "hms800wt2/pv_inv_power_factor"@,
                qos: QoS::AtMostOnce,
                retain: true,
                content: Content::Ratio { numerator: inverter.power_factor, denominator: 1000 },
            })
        }),
{
}

/// What is said of each panel input, under topics with its own number: voltage
/// and power in tenths, current in hundredths, total and daily energy as they
/// are. Nothing else is said: five messages for each input follow those of
/// plant and grid side, in the order of the inputs.
pub proof fn law_panel_readings_are_posted(state: Telemetry, local_time: Seq<char>, k: int)
    requires
        0 <= k < state.port_state.len(),
    ensures
        ({
            let all = posted(state, local_time);
            let port = state.port_state[k];
            let number = signed_decimal(port.pv_port as int);
            let head: int = if state.inverter_state.len() > 0 {
                8
            } else {
                3
            };
            let at = head + 5 * k;
            &&& all.len() == head + 5 * state.port_state.len()
            &&& all[at] == (Post {
                topic: "hms800wt2/pv_port"@ + number + "_voltage"@,
                qos: QoS::AtMostOnce,
                retain: true,
                content: Content::Ratio { numerator: port.pv_vol, denominator: 10 },
            })
            &&& all[at + 1] == (Post {
                topic: "hms800wt2/pv_port"@ + number + "_curr"@,
                qos: QoS::AtMostOnce,
                retain: true,
                content: Content::Ratio { numerator: port.pv_cur, denominator: 100 },
            })
            &&& all[at + 2] == (Post {
                topic: "hms800wt2/pv_port"@ + number + "_power"@,
                qos: QoS::AtMostOnce,
                retain: true,
                content: Content::Ratio { numerator: port.pv_power, denominator: 10 },
            })
            &&& all[at + 3] == (Post {
                topic: "hms800wt2/pv_port"@ + number + "_energy"@,
                qos: QoS::AtMostOnce,
                retain: true,
                content: Content::Ratio { numerator: port.pv_energy_total, denominator: 1 },
            })
            &&& all[at + 4] == (Post {
                topic: "hms800wt2/pv_port"@ + number + "_daily_yield"@,
                qos: QoS::AtMostOnce,
                retain: true,
                content: Content::Ratio { numerator: port.pv_daily_yield, denominator: 1 },
            })
        }),
{
    law_every_reading_is_posted(state, local_time);
    let all = posted(state, local_time);
    let head: int = if state.inverter_state.len() > 0 {
        8
    } else {
        3
    };
    let at = head + 5 * k;
    let five = port_posts(state.port_state[k]);
    assert(all.subrange(at, at + 5) == five);
    assert(all[at] == five[0]);
    assert(all[at + 1] == five[1]);
    assert(all[at + 2] == five[2]);
    assert(all[at + 3] == five[3]);
    assert(all[at + 4] == five[4]);
}

/// The local time that is posted is the time of the telemetry, or the Unix epoch
/// where that is before it, on a clock ahead of UTC by the offset; the rest of
/// the messages does not depend on the offset.
pub proof fn law_posted_local_time_is_that_of_the_telemetry(
    state: Telemetry,
    offset: int,
    other: int,
)
    ensures
        ({
            let seconds: int = if state.time > 0 {
                state.time as int
            } else {
                0
            };
            let all = posted_at_offset(state, offset);
            &&& all.len() > 0
            &&& all[0].content == Content::Text(
                calendar_text("%Y-%m-%d %H:%M:%S.%f"@, seconds + offset),
            )
            &&& all == posted(
                state,
                calendar_text("%Y-%m-%d %H:%M:%S.%f"@, seconds + offset),
            )
            &&& all.skip(1) == posted_at_offset(state, other).skip(1)
        }),
{
    assert(posted_at_offset(state, offset).skip(1) =~= posted_at_offset(state, other).skip(1));
}

/// The model of a message holds every field as it is, and lists of messages are
/// modelled one by one.
pub proof fn law_posts_hold_every_field(list: Seq<Publication>, i: int)
    requires
        0 <= i < list.len(),
    ensures
        posts(list).len() == list.len(),
        posts(list)[i].topic == list[i].topic@,
        posts(list)[i].qos == list[i].qos,
        posts(list)[i].retain == list[i].retain,
        list[i].payload matches Payload::Text(text) ==> posts(list)[i].content == Content::Text(
            text@,
        ),
        list[i].payload matches Payload::Ratio { numerator, denominator }
            ==> posts(list)[i].content == (Content::Ratio { numerator, denominator }),
{
}

} // verus!
