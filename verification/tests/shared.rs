use livekit_participant::attributes::{
    ConnectionQuality, InfoChange, ParticipantAttributes, ParticipantInfo,
};
use livekit_participant::id::{ParticipantIdentity, ParticipantSid};
use livekit_participant::packet::{DataPacket, DataPacketKind};
use livekit_participant::participant::{InfoUpdate, LocalParticipant};
use livekit_participant::shared::SharedParticipant;

fn shared_alice() -> SharedParticipant {
    SharedParticipant::new(LocalParticipant::new(
        ParticipantSid::new("PA_1".to_string()),
        ParticipantIdentity::new("alice".to_string()),
        "Alice".to_string(),
        "meta".to_string(),
    ))
}

fn info(sid: &str, identity: &str, name: &str, metadata: &str) -> ParticipantInfo {
    ParticipantInfo {
        sid: ParticipantSid::new(sid.to_string()),
        identity: ParticipantIdentity::new(identity.to_string()),
        name: name.to_string(),
        metadata: metadata.to_string(),
    }
}

#[test]
fn shared_participant_starts_as_the_one_put_in() {
    let mut inner = LocalParticipant::new(
        ParticipantSid::new("PA_7".to_string()),
        ParticipantIdentity::new("carol".to_string()),
        "Carol".to_string(),
        String::new(),
    );
    inner.set_speaking(true);
    inner.set_audio_level(0.25f32.to_bits());
    let expected = inner.read_snapshot();
    let shared = SharedParticipant::new(inner);
    assert_eq!(shared.sid().as_str(), "PA_7");
    assert_eq!(shared.identity().as_str(), "carol");
    assert_eq!(shared.read_snapshot(), expected);
}

#[test]
fn shared_writes_are_read_back() {
    let shared = shared_alice();
    shared.set_speaking(true);
    assert!(shared.read_snapshot().speaking);
    shared.set_audio_level(0.75f32.to_bits());
    assert_eq!(f32::from_bits(shared.read_snapshot().audio_level), 0.75);
    shared.set_connection_quality(ConnectionQuality::Poor);
    assert_eq!(shared.read_snapshot().connection_quality, ConnectionQuality::Poor);
    shared.set_speaking(false);
    assert_eq!(
        shared.read_snapshot(),
        ParticipantAttributes {
            name: "Alice".to_string(),
            metadata: "meta".to_string(),
            speaking: false,
            audio_level: 0x3f40_0000,
            connection_quality: ConnectionQuality::Poor,
            tracks: vec![],
        }
    );
}

#[test]
fn shared_update_is_applied_or_rejected() {
    let shared = shared_alice();
    let applied = shared.update_info(info("PA_1", "alice", "Alice B.", "meta"));
    assert_eq!(
        applied,
        InfoUpdate::Applied(InfoChange {
            previous_name: "Alice".to_string(),
            previous_metadata: "meta".to_string(),
            name_changed: true,
            metadata_changed: false,
        })
    );
    assert_eq!(shared.read_snapshot().name, "Alice B.");

    let rejected = shared.update_info(info("PA_2", "alice", "Someone", "else"));
    assert_eq!(rejected, InfoUpdate::Rejected);
    assert_eq!(shared.read_snapshot().name, "Alice B.");
    assert_eq!(shared.read_snapshot().metadata, "meta");
    assert_eq!(shared.sid().as_str(), "PA_1");
    assert_eq!(shared.identity().as_str(), "alice");
}

#[test]
fn shared_publish_uses_the_identity_put_in() {
    let shared = shared_alice();
    shared.set_speaking(true);
    let before = shared.read_snapshot();
    let packet = shared.publish_data(b"hello", DataPacketKind::Lossy);
    assert_eq!(
        packet,
        DataPacket {
            kind: DataPacketKind::Lossy,
            participant_identity: ParticipantIdentity::new("alice".to_string()),
            payload: b"hello".to_vec(),
            destination_identities: vec![],
        }
    );
    assert_eq!(shared.read_snapshot(), before);
}

#[test]
fn interleaved_speaking_writes_read_one_of_the_written_values() {
    let shared = shared_alice();
    let first = &shared;
    let second = &shared;
    let mut seen = Vec::new();
    for round in 0..8 {
        if round % 3 == 0 {
            first.set_speaking(true);
            seen.push((true, shared.read_snapshot().speaking));
        } else {
            second.set_speaking(false);
            seen.push((false, shared.read_snapshot().speaking));
        }
    }
    for (written, read) in seen {
        assert_eq!(written, read);
    }
    let snapshot = shared.read_snapshot();
    assert_eq!(snapshot.name, "Alice");
    assert_eq!(snapshot.metadata, "meta");
    assert_eq!(snapshot.audio_level, 0);
}

#[test]
fn lock_is_free_again_after_every_call() {
    let shared = shared_alice();
    for i in 0..100u32 {
        shared.set_audio_level(i);
        shared.set_speaking(i % 2 == 0);
        let _ = shared.update_info(info("PA_1", "alice", "n", "m"));
        let snapshot = shared.read_snapshot();
        assert_eq!(snapshot.audio_level, i);
    }
}

#[test]
fn shared_update_with_other_identity_is_rejected() {
    let shared = shared_alice();
    shared.set_speaking(true);
    let before = shared.read_snapshot();
    let rejected = shared.update_info(info("PA_1", "bob", "Bob", "other"));
    assert_eq!(rejected, InfoUpdate::Rejected);
    assert_eq!(shared.read_snapshot(), before);
    assert_eq!(shared.identity().as_str(), "alice");
}

#[test]
fn shared_update_reports_what_it_found() {
    let shared = shared_alice();
    let same = shared.update_info(info("PA_1", "alice", "Alice", "meta"));
    assert_eq!(
        same,
        InfoUpdate::Applied(InfoChange {
            previous_name: "Alice".to_string(),
            previous_metadata: "meta".to_string(),
            name_changed: false,
            metadata_changed: false,
        })
    );
    let both = shared.update_info(info("PA_1", "alice", "A", "m"));
    assert_eq!(
        both,
        InfoUpdate::Applied(InfoChange {
            previous_name: "Alice".to_string(),
            previous_metadata: "meta".to_string(),
            name_changed: true,
            metadata_changed: true,
        })
    );
    assert_eq!(shared.read_snapshot().name, "A");
    assert_eq!(shared.read_snapshot().metadata, "m");
}

#[test]
fn shared_snapshot_has_distinct_track_sids() {
    let shared = shared_alice();
    shared.set_speaking(true);
    let _ = shared.update_info(info("PA_1", "alice", "A", "m"));
    let snapshot = shared.read_snapshot();
    for (i, first) in snapshot.tracks.iter().enumerate() {
        for second in snapshot.tracks.iter().skip(i + 1) {
            assert!(!first.sid.same_as(&second.sid));
        }
    }
    assert!(snapshot.tracks.is_empty());
}
