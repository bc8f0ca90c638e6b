use vlc::{
    decode_event, position_result, sentinel_result, status_result, to_cstr, Event, EventRegistry, Instance,
    InternalError, Media, MediaPlayer, NativeHandle, Vlm, MEDIA_PLAYER_END_REACHED, MEDIA_PLAYER_OPENING,
    MEDIA_PLAYER_PLAYING, MEDIA_PLAYER_STOPPED, MEDIA_PLAYER_TIME_CHANGED, UNAVAILABLE_POSITION_BITS,
};

fn h(addr: usize) -> NativeHandle {
    NativeHandle { addr }
}

#[test]
fn playback_scenario_releases_children_first() {
    let instance = Instance::new(h(0x100)).ok().unwrap();
    let path = to_cstr("/media/clip.mp4").unwrap();
    assert_eq!(path.as_bytes_with_nul(), b"/media/clip.mp4\0");
    let media = Media::new(h(0x200)).ok().unwrap();
    let player = MediaPlayer::new(h(0x300)).ok().unwrap();
    assert_eq!(status_result(0), Ok(()));

    let mut registry: EventRegistry<u32> = EventRegistry::new();
    let token = registry.attach(MEDIA_PLAYER_PLAYING, 7).unwrap();
    let fired = [
        (MEDIA_PLAYER_OPENING, 0),
        (MEDIA_PLAYER_PLAYING, 0),
        (MEDIA_PLAYER_TIME_CHANGED, 500),
        (MEDIA_PLAYER_END_REACHED, 0),
    ];
    let mut states = Vec::new();
    for (kind, payload) in fired {
        assert!(registry.begin_dispatch(token));
        let event = decode_event(kind, payload).unwrap();
        if let Some(s) = event.state() {
            states.push(s);
        }
        registry.end_dispatch(token);
    }
    assert_eq!(states.iter().filter(|s| s.is_terminal()).count(), 1);
    assert_eq!(decode_event(MEDIA_PLAYER_STOPPED, 0), Some(Event::MediaPlayerStopped));

    for t in registry.active_tokens() {
        assert!(registry.detach(t));
    }
    assert!(registry.is_quiescent());
    let released = [player.release(), media.release(), instance.release()];
    assert_eq!(released, [h(0x300), h(0x200), h(0x100)]);
}

#[test]
fn broadcast_scenario() {
    let instance = Instance::new(h(0x100)).ok().unwrap();
    let q = instance.add_broadcast("name", "input", "output", None, true, false).ok().unwrap();
    assert_eq!(q.name.as_bytes_with_nul(), b"name\0");
    assert_eq!(q.input.as_bytes_with_nul(), b"input\0");
    assert_eq!(q.output.as_bytes_with_nul(), b"output\0");
    assert_eq!(q.option_count, 0);
    assert!(q.options.is_empty());
    assert_eq!(q.enabled, 1);
    assert_eq!(q.loop_broadcast, 0);
    assert_eq!(status_result(0), Ok(()));

    let play = instance.play_media("name").ok().unwrap();
    assert_eq!(play.as_bytes_with_nul(), b"name\0");
    assert_eq!(status_result(0), Ok(()));

    let pos = instance.get_media_instance_position("name", 0).ok().unwrap();
    assert_eq!(pos.name.as_bytes_with_nul(), b"name\0");
    assert_eq!(pos.instance, 0);
    assert_eq!(position_result(UNAVAILABLE_POSITION_BITS), Err(InternalError));
}

#[test]
fn broadcast_options_are_marshaled_in_order() {
    let instance = Instance::new(h(0x100)).ok().unwrap();
    let opts = vec!["--sout-keep".to_string(), "--ttl=4".to_string()];
    let q = instance.add_broadcast("b", "in", "out", Some(opts), false, true).ok().unwrap();
    assert_eq!(q.option_count, 2);
    assert_eq!(q.options[0].as_bytes_with_nul(), b"--sout-keep\0");
    assert_eq!(q.options[1].as_bytes_with_nul(), b"--ttl=4\0");
    assert_eq!(q.enabled, 0);
    assert_eq!(q.loop_broadcast, 1);
    let empty = instance.add_broadcast("b", "in", "out", Some(Vec::new()), true, true).ok().unwrap();
    assert_eq!(empty.option_count, 0);
}

#[test]
fn vlm_rejects_embedded_nul() {
    let instance = Instance::new(h(0x100)).ok().unwrap();
    assert!(instance.add_broadcast("na\0me", "in", "out", None, true, false).is_err());
    assert!(instance.add_broadcast("name", "in", "o\0ut", None, true, false).is_err());
    let bad = vec!["ok".to_string(), "b\0ad".to_string()];
    let e = instance.add_broadcast("name", "in", "out", Some(bad), true, false).err().unwrap();
    assert_eq!(e.position, 1);
    assert!(instance.add_vod("v", "i\0n", "mux", None, true).is_err());
    assert!(instance.play_media("\0").is_err());
    assert!(instance.pause_media("a\0").is_err());
    assert!(instance.stop_media("x\0y").is_err());
    assert!(instance.show_media("x\0y").is_err());
    assert!(instance.get_media_instance_length("\0", 0).is_err());
}

#[test]
fn vod_and_queries() {
    let instance = Instance::new(h(0x100)).ok().unwrap();
    let q = instance.add_vod("vod", "file.ts", "ts", Some(vec!["--loop".to_string()]), true).ok().unwrap();
    assert_eq!(q.name.as_bytes_with_nul(), b"vod\0");
    assert_eq!(q.mux.as_bytes_with_nul(), b"ts\0");
    assert_eq!(q.option_count, 1);
    assert_eq!(q.enabled, 1);
    let len = instance.get_media_instance_length("vod", 2).ok().unwrap();
    assert_eq!(len.instance, 2);
    assert_eq!(sentinel_result(-1), Err(InternalError));
    assert_eq!(sentinel_result(3600), Ok(3600));
    let t = instance.get_media_instance_time("vod", 1).ok().unwrap();
    assert_eq!(t.instance, 1);
    let r = instance.get_media_instance_rate("vod", 0).ok().unwrap();
    assert_eq!(r.name.len(), 3);
    assert_eq!(instance.pause_media("vod").ok().unwrap().as_bytes_with_nul(), b"vod\0");
    assert_eq!(instance.stop_media("vod").ok().unwrap().as_bytes_with_nul(), b"vod\0");
    assert_eq!(instance.show_media("vod").ok().unwrap().as_bytes_with_nul(), b"vod\0");
}
