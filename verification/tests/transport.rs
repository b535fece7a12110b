use chimp_osc::chimp::ChimpConnection;
use chimp_osc::keys::{Key, RecordMode};
use chimp_osc::osc::{encode, WireMessage};
use chimp_osc::recorder::{Recorder, Step};
use rosc::{OscMessage, OscPacket, OscType};

/// A transport that keeps the datagrams it would send and the time it would wait.
struct Datagrams {
    sent: Vec<Vec<u8>>,
    waited: u64,
}

impl ChimpConnection for Datagrams {
    fn send_bool(&mut self, addr: String, value: bool) {
        self.sent.push(encode(&WireMessage::toggle(addr, value)));
    }

    fn send_msg(&mut self, addr: String) {
        self.sent.push(encode(&WireMessage::trigger(addr)));
    }

    fn delay(&mut self, millis: u64) {
        self.waited += millis;
    }
}

fn datagram(addr: &str, args: Vec<OscType>) -> Vec<u8> {
    rosc::encoder::encode(&OscPacket::Message(OscMessage { addr: addr.to_string(), args })).unwrap()
}

#[test]
fn a_transport_with_the_three_primitives_has_every_operation() {
    let mut wire = Datagrams { sent: Vec::new(), waited: 0 };
    wire.sync();
    wire.select_group(7);
    let keypad = "/chimp/programmer/keypad/";
    let mut expected = vec![datagram("/chimp/sync", vec![])];
    for name in ["group", "7", "enter"] {
        let addr = format!("{}{}", keypad, name);
        expected.push(datagram(&addr, vec![OscType::Float(1.0)]));
        expected.push(datagram(&addr, vec![OscType::Float(0.0)]));
    }
    assert_eq!(wire.sent, expected);
    assert_eq!(wire.waited, 30 + 30 + 80);
}

#[test]
fn what_a_recorder_kept_can_be_sent_later() {
    let mut recorder = Recorder::new();
    recorder.record(Key::Group, 12, RecordMode::Insert);

    let mut direct = Datagrams { sent: Vec::new(), waited: 0 };
    direct.record(Key::Group, 12, RecordMode::Insert);

    let mut replayed = Datagrams { sent: Vec::new(), waited: 0 };
    for step in recorder.steps {
        match step {
            Step::Toggle { addr, value } => replayed.send_bool(addr, value),
            Step::Trigger { addr } => replayed.send_msg(addr),
            Step::Delay { millis } => replayed.delay(millis),
        }
    }
    assert_eq!(replayed.sent, direct.sent);
    assert_eq!(replayed.waited, direct.waited);
    assert_eq!(direct.waited, 30 + 10 + 4 * 30 + 20 + 30 + 2 * 30 + 80);
}
