use net_sync::event::{NetworkEvent, NetworkEventQueue};
use net_sync::synchronisation::WorldState;
use net_sync::transport::client::is_deliverable;
use net_sync::transport::packet::{ReceivedPacket, SentPacket};
use net_sync::transport::{
    Client, ClientToServerMessage, PeerAddr, PostBox, PostOffice, ServerToClientMessage,
};

#[derive(Clone, Debug, PartialEq)]
enum ClientMessage {
    EntityRemoved(u32),
}

fn addr(port: u16) -> PeerAddr {
    PeerAddr::v4(127, 0, 0, 1, port)
}

#[test]
fn command_message_is_added_to_command_inbox() {
    let mut client = Client::<u32, u32, u32>::new(addr(0), 0);

    client.add_received_message(ClientToServerMessage::Command(1, 1), 1);

    assert_eq!(
        client.command_postbox_mut().drain_frame(1).unwrap().len(),
        1
    );
}

#[test]
fn normal_message_is_added_to_postbox_inbox() {
    let mut client = Client::<u32, u32, u32>::new(addr(0), 0);

    client.add_received_message(ClientToServerMessage::Message(1), 1);

    let postbox = client.postbox_mut();
    assert_eq!(postbox.drain_inbox(|_| true).len(), 1);
}

#[test]
fn time_sync_changes_no_queue() {
    let mut client = Client::<u32, u32, u32>::new(addr(0), 3);
    client.add_received_message(ClientToServerMessage::TimeSync, 1);
    assert!(client.postbox().empty_inbox());
    assert_eq!(client.command_postbox().command_frame_span(), 0);
    assert_eq!(client.client_id(), 3);
    assert_eq!(client.addr(), addr(0));
}

#[test]
fn create_sent_packet_test() {
    let id = 0;
    let event = ClientMessage::EntityRemoved(id);

    let packet = SentPacket::new(event.clone());
    assert_eq!(packet.event(), &event);
}

#[test]
fn received_packet_keeps_source_and_event() {
    let packet = ReceivedPacket::new(addr(9), SentPacket::new(ClientMessage::EntityRemoved(4)));
    assert_eq!(packet.source(), &addr(9));
    assert_eq!(packet.event(), &ClientMessage::EntityRemoved(4));
}

#[test]
fn broadcast_should_broadcast() {
    let mut postoffice = PostOffice::<u32, u32, u32>::new();

    postoffice.add_client(addr(10)).unwrap();
    postoffice.add_client(addr(22)).unwrap();

    postoffice.broadcast(ServerToClientMessage::Message(1));

    let client1 = postoffice.client_by_id_mut(&0).unwrap();
    assert_eq!(client1.postbox_mut().drain_outgoing(|_| true).len(), 1);

    let client2 = postoffice.client_by_id_mut(&1).unwrap();
    assert_eq!(client2.postbox_mut().drain_outgoing(|_| true).len(), 1);
}

#[test]
fn broadcast_should_update_offset_in_world_state() {
    let mut postoffice = PostOffice::<u32, u32, u32>::new();

    postoffice.add_client(addr(10)).unwrap();
    postoffice.add_client(addr(20)).unwrap();

    {
        let client1 = postoffice.client_by_id_mut(&0).unwrap();
        client1.add_received_message(ClientToServerMessage::Command(4, 1), 0);
        assert_eq!(client1.command_postbox().command_frame_offset(), 4);

        let client2 = postoffice.client_by_id_mut(&1).unwrap();
        client2.add_received_message(ClientToServerMessage::Command(6, 1), 0);
        assert_eq!(client2.command_postbox().command_frame_offset(), 6);
    }

    postoffice.broadcast(ServerToClientMessage::StateUpdate(WorldState::new(1)));

    let client1 = postoffice.client_by_id_mut(&0).unwrap();
    let client1_outgoing = client1.postbox_mut().drain_outgoing(|_| true);

    let client2 = postoffice.client_by_id_mut(&1).unwrap();
    let client_2_outgoing = client2.postbox_mut().drain_outgoing(|_| true);

    match client1_outgoing.first().unwrap() {
        ServerToClientMessage::StateUpdate(WorldState {
            command_frame_offset: 4,
            command_frame: 1,
            ..
        }) => assert!(true),
        _ => assert!(false),
    };

    match client_2_outgoing.first().unwrap() {
        ServerToClientMessage::StateUpdate(WorldState {
            command_frame_offset: 6,
            command_frame: 1,
            ..
        }) => assert!(true),
        _ => assert!(false),
    };
}

#[test]
fn get_client_by_address_should_return() {
    let mut postoffice = PostOffice::<u32, u32, u32>::new();

    postoffice.add_client(addr(10)).unwrap();

    assert!(postoffice.client_by_addr_mut(&addr(10)).is_some())
}

#[test]
fn inserting_client_increases_client_id() {
    let mut postoffice = PostOffice::<u32, u32, u32>::new();

    assert_eq!(postoffice.add_client(addr(10)).unwrap(), 0);
    assert_eq!(postoffice.add_client(addr(11)).unwrap(), 1);
    assert_eq!(postoffice.add_client(addr(12)).unwrap(), 2);
    assert_eq!(postoffice.add_client(addr(13)).unwrap(), 3);
}

#[test]
fn add_twice_the_same_client_returns_none() {
    let mut postoffice = PostOffice::<u32, u32, u32>::new();

    assert!(postoffice.add_client(addr(19)).is_some());
    assert!(postoffice.add_client(addr(19)).is_none());
    assert_eq!(postoffice.client_count(), 1);
}

#[test]
fn returns_only_clients_with_inbox() {
    let mut postoffice = PostOffice::<u32, u32, u32>::new();

    let id_1 = postoffice.add_client(addr(10)).unwrap();
    let _id_2 = postoffice.add_client(addr(11)).unwrap();

    let client = postoffice.client_by_id_mut(&id_1).unwrap();
    client.add_received_message(ClientToServerMessage::Message(1), 0);

    let clients = postoffice.clients_with_inbox();
    assert_eq!(clients.len(), 1);
    assert_eq!(clients[0].client_id(), id_1);
}

#[test]
fn removing_an_unknown_client_changes_nothing() {
    let mut postoffice = PostOffice::<u32, u32, u32>::new();
    postoffice.add_client(addr(1)).unwrap();
    postoffice.remove_client(&7);
    assert_eq!(postoffice.client_count(), 1);
    postoffice.remove_client(&0);
    postoffice.remove_client(&0);
    assert_eq!(postoffice.client_count(), 0);
    assert!(!postoffice.client_exists(addr(1)));
}

#[test]
fn new_id_after_removal_takes_over_the_session_with_that_id() {
    let mut postoffice = PostOffice::<u32, u32, u32>::new();
    postoffice.add_client(addr(1)).unwrap();
    postoffice.add_client(addr(2)).unwrap();
    postoffice.remove_client(&0);
    assert_eq!(postoffice.add_client(addr(3)), Some(1));
    assert_eq!(postoffice.client_count(), 1);
    assert!(postoffice.client_exists(addr(3)));
    assert!(!postoffice.client_exists(addr(2)));
}

#[test]
fn accept_reports_the_connection() {
    let mut postoffice = PostOffice::<u32, u32, u32>::new();
    let mut events = NetworkEventQueue::new();
    assert_eq!(postoffice.accept(&mut events, addr(5)), Some(0));
    assert_eq!(events.dequeue(), Some(NetworkEvent::Connected(addr(5))));
    assert!(events.dequeue().is_none());
}

#[test]
fn disconnect_on_connection_reset() {
    let mut postoffice = PostOffice::<u32, u32, u32>::new();
    let mut events = NetworkEventQueue::new();
    postoffice.add_client(addr(8)).unwrap();

    postoffice.disconnect(&mut events, addr(8));
    postoffice.disconnect(&mut events, addr(9));

    assert_eq!(events.len(), 1);
    assert_eq!(events.peek(), Some(&NetworkEvent::Disconnected(addr(8), 0)));
}

#[test]
fn deliver_hands_messages_in_order_to_the_session() {
    let mut postoffice = PostOffice::<u32, u32, u32>::new();
    postoffice.add_client(addr(8)).unwrap();
    let batch = vec![
        ClientToServerMessage::Message(5),
        ClientToServerMessage::Command(3, 40),
        ClientToServerMessage::Message(6),
        ClientToServerMessage::TimeSync,
    ];
    assert!(postoffice.deliver(addr(8), batch, 2));
    assert!(!postoffice.deliver(addr(9), vec![ClientToServerMessage::Message(1)], 2));

    let client = postoffice.client_by_addr_mut(&addr(8)).unwrap();
    assert_eq!(client.postbox_mut().drain_inbox(|_| true), vec![5, 6]);
    assert_eq!(client.command_postbox().command_frame_offset(), 1);
    let commands = client.command_postbox_mut().drain_frame(3).unwrap();
    assert_eq!(commands.len(), 1);
    assert_eq!(commands[0].command, 40);
}

#[test]
fn offsets_that_do_not_fit_are_not_deliverable() {
    assert!(is_deliverable(&ClientToServerMessage::<u32, u32>::Command(5, 1), 3));
    assert!(!is_deliverable(&ClientToServerMessage::<u32, u32>::Command(u32::MAX, 1), 0));
    assert!(is_deliverable(&ClientToServerMessage::<u32, u32>::Message(1), u32::MAX));
}

#[test]
fn drain_outgoing_keeps_unpicked_messages_in_order() {
    let mut postbox = PostBox::<u32, u32>::new();
    for m in 1..=6u32 {
        postbox.send(m);
    }
    let even = postbox.drain_outgoing(|m| m % 2 == 0);
    assert_eq!(even, vec![2, 4, 6]);
    assert_eq!(postbox.get_outgoing().iter().copied().collect::<Vec<u32>>(), vec![1, 3, 5]);
    assert!(!postbox.empty_outgoing());
    postbox.drain_outgoing(|_| true);
    assert!(postbox.empty_outgoing());
}

#[test]
fn inbox_can_be_enumerated_and_trimmed() {
    let mut postbox = PostBox::<u32, u32>::new();
    postbox.add_to_inbox(10);
    postbox.add_to_inbox(20);
    postbox.add_to_inbox(30);
    postbox.remove_from_inbox(1);
    postbox.remove_from_inbox(9);
    let listed: Vec<(usize, u32)> = postbox.enumerate_inbox().iter().map(|(i, m)| (*i, **m)).collect();
    assert_eq!(listed, vec![(0, 10), (1, 30)]);
    assert_eq!(postbox.drain_inbox(|m| *m > 15), vec![30]);
    assert!(!postbox.empty_inbox());
}

#[test]
fn events_come_out_in_order() {
    let mut events = NetworkEventQueue::new();
    assert!(events.peek().is_none());
    events.enqueue(NetworkEvent::Connected(addr(1)));
    events.enqueue(NetworkEvent::Disconnected(addr(1), 0));
    assert_eq!(events.dequeue(), Some(NetworkEvent::Connected(addr(1))));
    assert_eq!(events.dequeue(), Some(NetworkEvent::Disconnected(addr(1), 0)));
    assert_eq!(events.dequeue(), None);
}

#[test]
fn peer_address_of_octets() {
    assert_eq!(addr(10), PeerAddr::V4 { ip: 0x7f00_0001, port: 10 });
    assert_ne!(addr(10), addr(11));
}

#[test]
fn urgent_messages_always_leave_with_priority() {
    let mut postbox = PostBox::<u32, u32>::new();
    postbox.send(1);
    postbox.send_immediate(2);
    postbox.send(3);
    postbox.send_immediate(4);

    let drained = postbox.drain_outgoing_with_priority(|m| *m == 3);
    assert_eq!(drained, vec![2, 4, 3]);
    assert_eq!(postbox.get_outgoing().iter().copied().collect::<Vec<u32>>(), vec![1]);
    assert!(!postbox.empty_outgoing());
}

#[test]
fn drain_outgoing_takes_urgent_messages_first() {
    let mut postbox = PostBox::<u32, u32>::new();
    postbox.send(1);
    postbox.send_immediate(2);
    postbox.send_immediate(5);
    postbox.send(6);

    assert_eq!(postbox.drain_outgoing(|m| m % 2 == 0), vec![2, 6]);
    assert_eq!(postbox.drain_outgoing(|_| true), vec![5, 1]);
    assert!(postbox.empty_outgoing());
}
