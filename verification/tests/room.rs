use protoo::error::RoomError;
use protoo::room::RoomState;

#[test]
fn admission_rules() {
    let mut room: RoomState<u32> = RoomState::new();
    assert!(room.admission("alice").is_ok());
    assert!(matches!(room.admission(""), Err(RoomError::InvalidPeerId)));
    room.insert_peer("alice".to_string(), 1);
    assert!(room.has_peer("alice"));
    assert_eq!(room.get_peer("alice"), Some(&1));
    match room.admission("alice") {
        Err(RoomError::DuplicatePeer(id)) => assert_eq!(id, "alice"),
        other => panic!("unexpected {:?}", other),
    }
    assert!(room.admission("bob").is_ok());
}

#[test]
fn peers_in_join_order_and_removal() {
    let mut room: RoomState<u32> = RoomState::new();
    room.insert_peer("a".to_string(), 1);
    room.insert_peer("b".to_string(), 2);
    room.insert_peer("c".to_string(), 3);
    assert_eq!(room.peers(), vec![&1, &2, &3]);
    assert_eq!(room.remove_peer("b"), Some(2));
    assert_eq!(room.remove_peer("b"), None);
    assert!(!room.has_peer("b"));
    assert_eq!(room.get_peer("b"), None);
    assert_eq!(room.peers(), vec![&1, &3]);
}

#[test]
fn closing_hands_back_peers_once() {
    let mut room: RoomState<u32> = RoomState::new();
    room.insert_peer("a".to_string(), 1);
    room.insert_peer("b".to_string(), 2);
    assert_eq!(room.begin_close(), Some(vec![1, 2]));
    assert!(room.closed());
    assert!(room.peers().is_empty());
    assert_eq!(room.begin_close(), None);
    assert!(matches!(room.admission("c"), Err(RoomError::Closed)));
    assert!(matches!(room.admission(""), Err(RoomError::Closed)));
}
