use vlc::{
    Instance, InternalError, Media, MediaLibrary, MediaList, MediaListPlayer, MediaPlayer, NativeHandle,
    PlaybackMode, State,
};

fn h(addr: usize) -> NativeHandle {
    NativeHandle { addr }
}

#[test]
fn every_handle_type_fails_on_null_creation() {
    let null = NativeHandle::null();
    assert!(null.is_null());
    assert!(matches!(Instance::new(null), Err(InternalError)));
    assert!(matches!(Media::new(null), Err(InternalError)));
    assert!(matches!(MediaPlayer::new(null), Err(InternalError)));
    assert!(matches!(MediaList::new(null), Err(InternalError)));
    assert!(matches!(MediaListPlayer::new(null), Err(InternalError)));
    assert!(matches!(MediaLibrary::new(null), Err(InternalError)));
}

#[test]
fn handles_keep_and_release_their_address() {
    let i = Instance::new(h(0x10)).ok().unwrap();
    assert_eq!(i.raw(), h(0x10));
    let m = Media::new(h(0x20)).ok().unwrap();
    assert_eq!(m.raw(), h(0x20));
    let p = MediaPlayer::new(h(0x30)).ok().unwrap();
    assert_eq!(p.raw(), h(0x30));
    let l = MediaList::new(h(0x40)).ok().unwrap();
    assert_eq!(l.raw(), h(0x40));
    assert_eq!(l.release(), h(0x40));
    assert_eq!(p.release(), h(0x30));
    assert_eq!(m.release(), h(0x20));
    assert_eq!(i.release(), h(0x10));
}

#[test]
fn event_manager_borrows_its_owner() {
    let p = MediaPlayer::new(h(0x30)).ok().unwrap();
    {
        let em = p.event_manager(h(0x31));
        assert_eq!(em.raw(), h(0x31));
        assert_eq!(em.owner(), h(0x30));
    }
    let m = Media::new(h(0x50)).ok().unwrap();
    assert_eq!(m.event_manager(h(0x51)).owner(), h(0x50));
    assert_eq!(p.release(), h(0x30));
}

#[test]
fn media_library_load_and_list() {
    let lib = MediaLibrary::new(h(0x60)).ok().unwrap();
    assert_eq!(lib.raw(), h(0x60));
    assert_eq!(lib.load(0), Ok(()));
    assert_eq!(lib.load(-1), Err(InternalError));
    assert!(lib.media_list(NativeHandle::null()).is_none());
    let list = lib.media_list(h(0x61)).unwrap();
    assert_eq!(list.raw(), h(0x61));
    assert_eq!(lib.release(), h(0x60));
}

#[test]
fn media_list_player_conversions() {
    let mlp = MediaListPlayer::new(h(0x70)).ok().unwrap();
    let mp = MediaPlayer::new(h(0x71)).ok().unwrap();
    let ml = MediaList::new(h(0x72)).ok().unwrap();
    assert_eq!(mlp.set_media_player(&mp), (h(0x70), h(0x71)));
    assert_eq!(mlp.set_media_list(&ml), (h(0x70), h(0x72)));
    assert!(mlp.get_media_player(NativeHandle::null()).is_none());
    assert_eq!(mlp.get_media_player(h(0x71)).unwrap().raw(), h(0x71));
    assert_eq!(mlp.play(), Ok(()));
    assert_eq!(mlp.set_pause(true), 1);
    assert_eq!(mlp.set_pause(false), 0);
    assert!(mlp.is_playing(1));
    assert!(!mlp.is_playing(0));
    assert_eq!(mlp.state(3), State::Playing);
    assert_eq!(mlp.state(6), State::Ended);
    assert_eq!(mlp.play_item_at_index(0), Ok(()));
    assert_eq!(mlp.play_item_at_index(-1), Err(InternalError));
    assert_eq!(mlp.play_item(0), Ok(()));
    assert_eq!(mlp.play_item(2), Err(InternalError));
    assert_eq!(mlp.next(0), Ok(()));
    assert_eq!(mlp.next(-1), Err(InternalError));
    assert_eq!(mlp.previous(0), Ok(()));
    assert_eq!(mlp.previous(-1), Err(InternalError));
    assert_eq!(mlp.set_playback_mode(PlaybackMode::Default), 0);
    assert_eq!(mlp.set_playback_mode(PlaybackMode::Loop), 1);
    assert_eq!(mlp.set_playback_mode(PlaybackMode::Repeat), 2);
    assert_eq!(mlp.event_manager(h(0x73)).owner(), h(0x70));
    assert_eq!(mlp.release(), h(0x70));
}
