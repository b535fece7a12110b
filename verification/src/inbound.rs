//! What comes in over the wire: the packets in which the console reports.

use rosc::{OscError, OscPacket, OscType};
use vstd::prelude::*;
use vstd::string::*;

verus! {

/// The size of the buffer that a datagram from the console is read into.
pub const RECEIVE_BUFFER_LEN: usize = 1024;

/// Seconds after which a read from the console gives up, to be tried again.
pub const READ_TIMEOUT_SECS: u64 = 5;

/// One argument of an inbound message, as far as this library reads it.
#[derive(Debug, PartialEq, Eq)]
pub enum Argument {
    /// A string argument.
    Text(String),
    /// An argument of any other type.
    Other,
}

/// An inbound message: an address and arguments.
#[derive(Debug, PartialEq, Eq)]
pub struct Message {
    pub addr: String,
    pub args: Vec<Argument>,
}

/// An inbound packet: one message, or a bundle of packets.
#[derive(Debug, PartialEq, Eq)]
pub enum Packet {
    Message(Message),
    Bundle(Vec<Packet>),
}

/// What an `Argument` holds.
pub enum ArgumentView {
    Text(Seq<char>),
    Other,
}

/// What a `Message` holds.
pub struct MessageView {
    pub addr: Seq<char>,
    pub args: Seq<ArgumentView>,
}

/// What a `Packet` holds.
pub enum PacketView {
    Message(MessageView),
    Bundle(Seq<PacketView>),
}

impl View for Argument {
    type V = ArgumentView;

    open spec fn view(&self) -> ArgumentView {
        match self {
            Argument::Text(text) => ArgumentView::Text(text@),
            Argument::Other => ArgumentView::Other,
        }
    }
}

impl View for Message {
    type V = MessageView;

    open spec fn view(&self) -> MessageView {
        MessageView { addr: self.addr@, args: self.args@.map_values(|a: Argument| a@) }
    }
}

impl View for Packet {
    type V = PacketView;

    open spec fn view(&self) -> PacketView {
        packet_view(*self)
    }
}

/// What a packet holds.
pub open spec fn packet_view(packet: Packet) -> PacketView
    decreases packet,
{
    match packet {
        Packet::Message(message) => PacketView::Message(message@),
        Packet::Bundle(content) => PacketView::Bundle(content_view(content@)),
    }
}

/// What each packet of a bundle holds.
pub open spec fn content_view(content: Seq<Packet>) -> Seq<PacketView>
    decreases content,
{
    if content.len() == 0 {
        Seq::empty()
    } else {
        content_view(content.drop_last()).push(packet_view(content.last()))
    }
}

/// The view of a bundle's content is the view of each packet in it.
pub proof fn lemma_content_view(content: Seq<Packet>)
    ensures
        content_view(content) == packet_views(content),
    decreases content.len(),
{
    if content.len() > 0 {
        lemma_content_view(content.drop_last());
    }
}

/// The messages of a packet, in the order in which they stand in it.
pub open spec fn flat(packet: PacketView) -> Seq<MessageView>
    decreases packet,
{
    match packet {
        PacketView::Message(message) => seq![message],
        PacketView::Bundle(content) => flat_all(content),
    }
}

/// The messages of a sequence of packets, in the order in which they stand in it.
pub open spec fn flat_all(packets: Seq<PacketView>) -> Seq<MessageView>
    decreases packets,
{
    if packets.len() == 0 {
        Seq::empty()
    } else {
        flat_all(packets.drop_last()) + flat(packets.last())
    }
}

/// The address under which the console reports its command line.
pub open spec fn command_line_address() -> Seq<char> {
    "/chimp/programmer/commandline/content"@
}

/// `rosc::OscPacket`, a packet as the decoder hands it out. Nothing is read
/// of it here but by `import_packet`.
#[verifier::external_type_specification]
#[verifier::external_body]
pub struct ExOscPacket(OscPacket);

/// `rosc::OscType`, an argument as the decoder hands it out. Nothing is read
/// of it here but by `import_argument`.
#[verifier::external_type_specification]
#[verifier::external_body]
pub struct ExOscType(OscType);

/// What `rosc::decoder::decode_udp` makes of the bytes, as this library
/// reads it: the first packet in them with the bytes that follow it, or
/// nothing where they do not begin with a packet.
pub uninterp spec fn decoded(bytes: Seq<u8>) -> Option<(Seq<u8>, PacketView)>;

/// Turns a `rosc::OscType` into an argument as this library reads it: the
/// text of a string argument, and of any other argument only that it is there.
#[verifier::external_body]
fn import_argument(arg: OscType) -> Argument {
    match arg {
        OscType::String(text) => Argument::Text(text),
        _ => Argument::Other,
    }
}

/// Turns a `rosc::OscPacket` into a packet as this library reads it: of a
/// message the address and the arguments, of a bundle the packets in it, in
/// their order. The time tag of a bundle is dropped.
#[verifier::external_body]
fn import_packet(packet: OscPacket) -> Packet {
    match packet {
        OscPacket::Message(message) => Packet::Message(
            Message {
                addr: message.addr,
                args: message.args.into_iter().map(import_argument).collect(),
            },
        ),
        OscPacket::Bundle(bundle) => Packet::Bundle(
            bundle.content.into_iter().map(import_packet).collect(),
        ),
    }
}

/// `rosc::decoder::decode_udp`: reads one packet from the front of `bytes`
/// and hands it back with the bytes behind it.
///
/// What comes back depends on the bytes alone. Where the decoder succeeds it
/// has read at least the packet's address, so fewer bytes are left than came
/// in. It reads a bundle inside a bundle by a call of its own, one level
/// deeper for each twenty bytes at most: the bound on the input, which no
/// datagram read into the receive buffer exceeds, bounds how deep it goes.
#[verifier::external_body]
fn decode_unit<'a>(bytes: &'a [u8]) -> (unit: Result<(&'a [u8], Packet), OscError>)
    requires
        bytes@.len() <= RECEIVE_BUFFER_LEN,
    ensures
        match unit {
            Ok((rest, packet)) => decoded(bytes@) == Some((rest@, packet@)),
            Err(_) => decoded(bytes@).is_none(),
        },
        unit matches Ok((rest, _)) ==> rest@.len() < bytes@.len(),
{
    match rosc::decoder::decode_udp(bytes) {
        Ok((rest, packet)) => Ok((rest, import_packet(packet))),
        Err(error) => Err(error),
    }
}

/// What each of the packets holds.
pub open spec fn packet_views(packets: Seq<Packet>) -> Seq<PacketView> {
    packets.map_values(|p: Packet| p@)
}

/// The packets that stand one behind the other in a datagram, up to the
/// first place at which no packet begins.
pub open spec fn decoded_units(bytes: Seq<u8>) -> Seq<PacketView>
    decreases bytes.len(),
{
    if bytes.len() == 0 {
        Seq::empty()
    } else {
        match decoded(bytes) {
            Some((rest, packet)) => if rest.len() < bytes.len() {
                seq![packet] + decoded_units(rest)
            } else {
                seq![packet]
            },
            None => Seq::empty(),
        }
    }
}

/// Reads the packets of a datagram, one after the other. Where the bytes
/// that are left do not begin with a packet, they are dropped.
pub fn decode_datagram(buffer: &[u8]) -> (packets: Vec<Packet>)
    requires
        buffer@.len() <= RECEIVE_BUFFER_LEN,
    ensures
        packet_views(packets@) == decoded_units(buffer@),
{
    let mut bytes: &[u8] = buffer;
    let mut packets: Vec<Packet> = Vec::new();
    while bytes.len() > 0
        invariant_except_break
            bytes@.len() <= RECEIVE_BUFFER_LEN,
            packet_views(packets@) + decoded_units(bytes@) == decoded_units(buffer@),
        ensures
            packet_views(packets@) == decoded_units(buffer@),
        decreases bytes@.len(),
    {
        match decode_unit(bytes) {
            Ok((rest, packet)) => {
                packets.push(packet);
                bytes = rest;
            },
            Err(_) => {
                break ;
            },
        }
    }
    packets
}

/// What each of the messages holds.
pub open spec fn message_views(messages: Seq<&Message>) -> Seq<MessageView> {
    messages.map_values(|m: &Message| m@)
}

/// What each of the texts holds.
pub open spec fn text_views(texts: Seq<String>) -> Seq<Seq<char>> {
    texts.map_values(|t: String| t@)
}

/// The command line that a message reports: the text of its first argument,
/// if the message goes to the address of the command line and that argument
/// is a string.
pub open spec fn command_line_of(message: MessageView) -> Option<Seq<char>> {
    if message.addr == command_line_address() && message.args.len() > 0
        && message.args[0] is Text {
        Some(message.args[0]->Text_0)
    } else {
        None
    }
}

/// The command lines that the messages report, in the order of the messages.
pub open spec fn command_lines(messages: Seq<MessageView>) -> Seq<Seq<char>>
    decreases messages.len(),
{
    if messages.len() == 0 {
        Seq::empty()
    } else {
        match command_line_of(messages.last()) {
            Some(text) => command_lines(messages.drop_last()).push(text),
            None => command_lines(messages.drop_last()),
        }
    }
}

/// Adds the messages of `packet` to `out`, in the order in which they stand in it.
fn collect<'a>(packet: &'a Packet, out: &mut Vec<&'a Message>)
    ensures
        message_views(final(out)@) == message_views(old(out)@) + flat(packet@),
    decreases packet,
{
    match packet {
        Packet::Message(message) => out.push(message),
        Packet::Bundle(content) => {
            let ghost views = packet@->Bundle_0;
            let mut i: usize = 0;
            proof {
                lemma_content_view(content@);
            }
            while i < content.len()
                invariant
                    i <= content@.len(),
                    *packet == Packet::Bundle(*content),
                    views.len() == content@.len(),
                    forall|k: int| 0 <= k < content@.len() ==> #[trigger] views[k] == content@[k]@,
                    message_views(out@) == message_views(old(out)@) + flat_all(
                        views.take(i as int),
                    ),
                decreases content@.len() - i,
            {
                proof {
                    vstd::std_specs::vec::axiom_vec_index_decreases(*content, i as int);
                    assert(packet->Bundle_0 == *content);
                }
                collect(&content[i], out);
                assert(views.take(i + 1).drop_last() =~= views.take(i as int));
                i += 1;
            }
            assert(views.take(i as int) =~= views);
        },
    }
}

/// The messages of a packet, in the order in which they stand in it: a
/// bundle is unpacked, and so is every bundle inside it.
pub fn flatten<'a>(packet: &'a Packet) -> (messages: Vec<&'a Message>)
    ensures
        message_views(messages@) == flat(packet@),
{
    let mut messages: Vec<&'a Message> = Vec::new();
    collect(packet, &mut messages);
    messages
}

/// The command line that the message reports, if it reports one.
pub fn command_line(message: &Message) -> (line: Option<String>)
    ensures
        line.is_some() == command_line_of(message@).is_some(),
        line matches Some(text) ==> command_line_of(message@) == Some(text@),
{
    let address = String::from_str("/chimp/programmer/commandline/content");
    if message.addr == address && message.args.len() > 0 {
        match &message.args[0] {
            Argument::Text(text) => Some(text.clone()),
            Argument::Other => None,
        }
    } else {
        None
    }
}

/// The command lines that the packet reports, in the order in which its
/// messages stand in it.
pub fn handle_osc_packet(packet: &Packet) -> (lines: Vec<String>)
    ensures
        text_views(lines@) == command_lines(flat(packet@)),
{
    let messages = flatten(packet);
    let mut lines: Vec<String> = Vec::new();
    let mut i: usize = 0;
    while i < messages.len()
        invariant
            i <= messages@.len(),
            text_views(lines@) == command_lines(message_views(messages@).take(i as int)),
        decreases messages@.len() - i,
    {
        let ghost views = message_views(messages@);
        assert(views.take(i + 1).drop_last() =~= views.take(i as int));
        match command_line(messages[i]) {
            Some(text) => lines.push(text),
            None => {},
        }
        i += 1;
    }
    assert(message_views(messages@).take(i as int) =~= message_views(messages@));
    lines
}

/// The command lines of messages that stand one behind the other are those
/// of the first ones, then those of the ones behind.
pub proof fn lemma_command_lines_concat(first: Seq<MessageView>, second: Seq<MessageView>)
    ensures
        command_lines(first + second) == command_lines(first) + command_lines(second),
    decreases second.len(),
{
    if second.len() > 0 {
        lemma_command_lines_concat(first, second.drop_last());
        assert((first + second).drop_last() =~= first + second.drop_last());
    }
}

/// The command lines that a datagram reports, in the order in which its
/// messages stand in it. What follows the last packet that can be read is
/// dropped.
pub fn dispatch_datagram(buffer: &[u8]) -> (lines: Vec<String>)
    requires
        buffer@.len() <= RECEIVE_BUFFER_LEN,
    ensures
        text_views(lines@) == command_lines(flat_all(decoded_units(buffer@))),
{
    let packets = decode_datagram(buffer);
    let mut lines: Vec<String> = Vec::new();
    let mut i: usize = 0;
    let ghost units = decoded_units(buffer@);
    while i < packets.len()
        invariant
            i <= packets@.len(),
            units == packet_views(packets@),
            text_views(lines@) == command_lines(flat_all(units.take(i as int))),
        decreases packets@.len() - i,
    {
        let mut found = handle_osc_packet(&packets[i]);
        proof {
            assert(units.take(i + 1).drop_last() =~= units.take(i as int));
            lemma_command_lines_concat(flat_all(units.take(i as int)), flat(packets@[i as int]@));
        }
        lines.append(&mut found);
        i += 1;
    }
    assert(units.take(i as int) =~= units);
    lines
}

/// What one attempt to read from the console came to.
#[derive(Debug, PartialEq, Eq)]
pub enum Inbound {
    /// A datagram arrived; these are its bytes.
    Datagram(Vec<u8>),
    /// Nothing arrived within the time allowed.
    TimedOut,
    /// Nothing has arrived yet.
    WouldBlock,
    /// The read failed for any other reason.
    Failed,
}

/// What the receive loop does about it, before it reads again.
#[derive(Debug, PartialEq, Eq)]
pub enum Reaction {
    /// Hand these command lines to whoever watches the console.
    Forward(Vec<String>),
    /// Nothing.
    Retry,
    /// Report the failure.
    Report,
}

/// Decides what the receive loop does with the outcome of a read. Nothing
/// that arrives, or fails to, ends the loop: a datagram yields the command
/// lines in it, a read that had nothing to read is no failure, and any other
/// failure is reported.
pub fn receive(inbound: &Inbound) -> (reaction: Reaction)
    requires
        inbound matches Inbound::Datagram(bytes) ==> bytes@.len() <= RECEIVE_BUFFER_LEN,
    ensures
        match inbound {
            Inbound::Datagram(bytes) => reaction matches Reaction::Forward(lines) && text_views(
                lines@,
            ) == command_lines(flat_all(decoded_units(bytes@))),
            Inbound::TimedOut => reaction == Reaction::Retry,
            Inbound::WouldBlock => reaction == Reaction::Retry,
            Inbound::Failed => reaction == Reaction::Report,
        },
{
    match inbound {
        Inbound::Datagram(bytes) => Reaction::Forward(dispatch_datagram(bytes.as_slice())),
        Inbound::TimedOut => Reaction::Retry,
        Inbound::WouldBlock => Reaction::Retry,
        Inbound::Failed => Reaction::Report,
    }
}

/// Unpacking keeps order and loses nothing: the messages of packets that
/// stand one behind the other are the messages of the first ones, then those
/// of the ones behind.
pub proof fn lemma_flat_all_concat(first: Seq<PacketView>, second: Seq<PacketView>)
    ensures
        flat_all(first + second) == flat_all(first) + flat_all(second),
    decreases second.len(),
{
    if second.len() > 0 {
        lemma_flat_all_concat(first, second.drop_last());
        assert((first + second).drop_last() =~= first + second.drop_last());
    }
}

/// A bundle of messages unpacks to those messages, each once and in their order.
pub proof fn lemma_flat_of_messages(messages: Seq<MessageView>)
    ensures
        flat(PacketView::Bundle(messages.map_values(|m: MessageView| PacketView::Message(m))))
            == messages,
    decreases messages.len(),
{
    let packets = messages.map_values(|m: MessageView| PacketView::Message(m));
    if messages.len() > 0 {
        lemma_flat_of_messages(messages.drop_last());
        assert(packets.drop_last() =~= messages.drop_last().map_values(
            |m: MessageView| PacketView::Message(m),
        ));
        assert(flat_all(packets) == flat_all(packets.drop_last()) + flat(packets.last()));
    }
}

/// A bundle that holds one packet unpacks to what that packet unpacks to.
pub proof fn lemma_flat_of_wrapped(packet: PacketView)
    ensures
        flat(PacketView::Bundle(seq![packet])) == flat(packet),
{
    let one = seq![packet];
    assert(flat_all(one) == flat_all(one.drop_last()) + flat(one.last()));
}

/// A bundle that holds a bundle that holds two messages unpacks to exactly
/// those two messages, in their order.
pub proof fn lemma_flat_nested_pair(first: MessageView, second: MessageView)
    ensures
        flat(
            PacketView::Bundle(
                seq![
                    PacketView::Bundle(
                        seq![PacketView::Message(first), PacketView::Message(second)],
                    ),
                ],
            ),
        ) == seq![first, second],
{
    let inner = seq![PacketView::Message(first), PacketView::Message(second)];
    lemma_flat_of_wrapped(PacketView::Bundle(inner));
    lemma_flat_of_messages(seq![first, second]);
    assert(inner =~= seq![first, second].map_values(|m: MessageView| PacketView::Message(m)));
}

/// Where a datagram begins with a packet and what follows it is not the
/// beginning of a packet, the datagram holds that one packet and no more.
/// The same holds where nothing follows it.
pub proof fn lemma_partial_datagram(bytes: Seq<u8>)
    requires
        bytes.len() > 0,
        decoded(bytes).is_some(),
        decoded(bytes).unwrap().0.len() == 0 || decoded(decoded(bytes).unwrap().0).is_none(),
    ensures
        decoded_units(bytes) == seq![decoded(bytes).unwrap().1],
{
    let rest = decoded(bytes).unwrap().0;
    if rest.len() < bytes.len() {
        assert(decoded_units(rest) =~= Seq::<PacketView>::empty());
    }
}

} // verus!
