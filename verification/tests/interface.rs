use shukusai::collection::{ImageCache, SongKey};
use shukusai::device::{
    device_registry, needs_reopen, resolve_device, ring_len, AudioOutputDevice, AudioOutputError,
    DeviceChoice, SignalSpec,
};
use shukusai::engine::{timebase_seconds, Command};
use shukusai::kernel::{
    route_audio, route_frontend, route_media, AudioToKernel, FrontendToKernel, KernelToFrontend,
    MediaEvent, MediaRouted, Routed, SearchKind,
};
use shukusai::rpc::{default_url, Method};
use shukusai::state::{Append, Repeat, Seek, Volume, PREVIOUS_THRESHOLD_DEFAULT, VOLUME_MAX};

#[test]
fn flip() {
    let mut b = true;
    shukusai::flip(&mut b);
    assert!(b == false);
}

#[test]
fn default_url_is_loopback() {
    assert_eq!(default_url(), "http://127.0.0.1:18425");
}

#[test]
fn methods_are_plain_values() {
    assert_eq!(Method::Toggle, Method::Toggle);
    assert_ne!(Method::Play, Method::Pause);
    let m = Method::QueueRemoveRange;
    assert_eq!(m.clone(), Method::QueueRemoveRange);
}

#[test]
fn frontend_commands_route_to_the_engine() {
    assert!(matches!(
        route_frontend(FrontendToKernel::Toggle),
        Routed::ToAudio(Command::Toggle)
    ));
    assert!(matches!(
        route_frontend(FrontendToKernel::Stop),
        Routed::ToAudio(Command::Clear(false))
    ));
    assert!(matches!(
        route_frontend(FrontendToKernel::Next),
        Routed::ToAudio(Command::Next)
    ));
    assert!(matches!(
        route_frontend(FrontendToKernel::Previous(Some(9))),
        Routed::ToAudio(Command::Previous(Some(9)))
    ));
    assert!(matches!(
        route_frontend(FrontendToKernel::Skip(4)),
        Routed::ToAudio(Command::Skip(4))
    ));
    assert!(matches!(
        route_frontend(FrontendToKernel::Seek((Seek::Backward, 11))),
        Routed::ToAudio(Command::Seek(Seek::Backward, 11))
    ));
    match route_frontend(FrontendToKernel::Volume(Volume(250))) {
        Routed::ToAudio(Command::Volume(v)) => assert_eq!(v, Volume(VOLUME_MAX)),
        _ => panic!("volume must go to the engine clamped"),
    }
    match route_frontend(FrontendToKernel::QueueAddSong((
        SongKey(3),
        Append::Front,
        true,
        false,
    ))) {
        Routed::ToAudio(Command::QueueAddSong(k, ap, cl, pl)) => {
            assert_eq!(k, SongKey(3));
            assert_eq!(ap, Append::Front);
            assert!(cl);
            assert!(!pl);
        },
        _ => panic!("song additions must go to the engine"),
    }
    match route_frontend(FrontendToKernel::QueueAddPlaylist((
        "road trip".to_string(),
        Append::Back,
        false,
        true,
        2,
    ))) {
        Routed::ToAudioPlaylist((name, ap, cl, pl, off)) => {
            assert_eq!(name, "road trip");
            assert_eq!(ap, Append::Back);
            assert!(!cl);
            assert!(pl);
            assert_eq!(off, 2);
        },
        _ => panic!("playlists are resolved by the caller"),
    }
    assert!(matches!(
        route_frontend(FrontendToKernel::RestoreAudioState),
        Routed::ToAudioRestore
    ));
    match route_frontend(FrontendToKernel::SetOutputDevice("USB DAC".to_string())) {
        Routed::ToAudioDevice(name) => assert_eq!(name, "USB DAC"),
        _ => panic!("device changes go to the output"),
    }
    match route_frontend(FrontendToKernel::Search(("abba".to_string(), SearchKind::Top5))) {
        Routed::ToSearch((q, kind)) => {
            assert_eq!(q, "abba");
            assert_eq!(kind, SearchKind::Top5);
        },
        _ => panic!("searches go to the search worker"),
    }
    match route_frontend(FrontendToKernel::NewCollection(vec!["/music".to_string()])) {
        Routed::CcdMode(paths) => assert_eq!(paths, vec!["/music".to_string()]),
        _ => panic!("a new catalog starts the builder"),
    }
    match route_frontend(FrontendToKernel::CachePath(vec!["/music".to_string()])) {
        Routed::CachePath(paths) => assert_eq!(paths.len(), 1),
        _ => panic!("cache warming spawns its own walker"),
    }
    assert!(matches!(route_frontend(FrontendToKernel::Exit), Routed::Exit));
    assert!(matches!(
        route_frontend(FrontendToKernel::Repeat(Repeat::Song)),
        Routed::ToAudio(Command::Repeat(Repeat::Song))
    ));
}

#[test]
fn engine_errors_reach_the_frontend() {
    match route_audio(AudioToKernel::PathError((SongKey(8), "no such file".to_string()))) {
        KernelToFrontend::PathError((k, msg)) => {
            assert_eq!(k, SongKey(8));
            assert_eq!(msg, "no such file");
        },
        _ => panic!("path errors keep their key"),
    }
    assert!(matches!(
        route_audio(AudioToKernel::DeviceError("gone".to_string())),
        KernelToFrontend::DeviceError(_)
    ));
    assert!(matches!(
        route_audio(AudioToKernel::PlayError("full".to_string())),
        KernelToFrontend::PlayError(_)
    ));
    assert!(matches!(
        route_audio(AudioToKernel::SeekError("past the end".to_string())),
        KernelToFrontend::SeekError(_)
    ));
}

#[test]
fn media_keys_route_like_commands() {
    assert!(matches!(
        route_media(MediaEvent::Toggle),
        MediaRouted::ToAudio(Command::Toggle)
    ));
    assert!(matches!(
        route_media(MediaEvent::Previous),
        MediaRouted::ToAudio(Command::Previous(None))
    ));
    assert!(matches!(
        route_media(MediaEvent::Stop),
        MediaRouted::ToAudio(Command::Clear(false))
    ));
    assert!(matches!(
        route_media(MediaEvent::SetPosition(90)),
        MediaRouted::ToAudio(Command::Seek(Seek::Absolute, 90))
    ));
    assert!(matches!(
        route_media(MediaEvent::Seek(true)),
        MediaRouted::ToAudio(Command::Seek(Seek::Forward, 5))
    ));
    assert!(matches!(
        route_media(MediaEvent::SeekBy(false, 30)),
        MediaRouted::ToAudio(Command::Seek(Seek::Backward, 30))
    ));
    assert!(matches!(route_media(MediaEvent::Raise), MediaRouted::Raise));
    assert!(matches!(route_media(MediaEvent::Quit), MediaRouted::Quit));
    assert!(matches!(
        route_media(MediaEvent::OpenUri("file:///x".to_string())),
        MediaRouted::Ignore
    ));
}

#[test]
fn device_names_resolve_to_one_device() {
    let names = vec![
        "Speakers".to_string(),
        "USB DAC".to_string(),
        "Speakers".to_string(),
    ];
    let unique = AudioOutputDevice::from_str("USB DAC");
    assert_eq!(resolve_device(&names, &unique).unwrap(), DeviceChoice::Device(1));

    let ambiguous = AudioOutputDevice::from_str("Speakers");
    assert!(matches!(
        resolve_device(&names, &ambiguous),
        Err(AudioOutputError::InvalidOutputDevice(_))
    ));

    let missing = AudioOutputDevice::from_str("Headphones");
    assert!(matches!(
        resolve_device(&names, &missing),
        Err(AudioOutputError::InvalidOutputDevice(_))
    ));

    let fallback = AudioOutputDevice::default();
    assert_eq!(resolve_device(&names, &fallback).unwrap(), DeviceChoice::SystemDefault);
}

#[test]
fn registry_starts_with_the_default_name() {
    let r = device_registry(vec!["Speakers".to_string(), "USB DAC".to_string()]);
    assert_eq!(r, vec!["Default Device", "Speakers", "USB DAC"]);
    let empty = device_registry(vec![]);
    assert_eq!(empty, vec!["Default Device"]);
}

#[test]
fn device_helpers() {
    let d = AudioOutputDevice::from_str("USB DAC");
    assert_eq!(d.human(), "USB DAC");
    assert_eq!(AudioOutputDevice::default().human(), "Default Device");
    assert_eq!(
        AudioOutputError::NonF32("sample format is not f32".to_string()).into_message(),
        "sample format is not f32"
    );
}

#[test]
fn ring_holds_fifty_milliseconds() {
    assert_eq!(ring_len(44100, 2), 4410);
    assert_eq!(ring_len(48000, 2), 4800);
    assert_eq!(ring_len(44100, 1), 2205);
}

#[test]
fn reopen_only_on_a_changed_signal() {
    let a = SignalSpec { channels: 2, rate: 44100 };
    let b = SignalSpec { channels: 2, rate: 48000 };
    assert!(!needs_reopen(a, 4608, a, 4608));
    assert!(needs_reopen(b, 4608, a, 4608));
    assert!(needs_reopen(a, 1024, a, 4608));
}

#[test]
fn timebase_counts_whole_seconds() {
    assert_eq!(timebase_seconds(1, 44100, 0), 0);
    assert_eq!(timebase_seconds(1, 44100, 44099), 0);
    assert_eq!(timebase_seconds(1, 44100, 44100), 1);
    assert_eq!(timebase_seconds(1, 44100, 88200 + 5), 2);
    assert_eq!(timebase_seconds(1, 2, u64::MAX), u64::MAX / 2);
}

#[test]
fn volume_is_always_a_percentage() {
    assert_eq!(Volume::new(0).inner(), 0);
    assert_eq!(Volume::new(100).inner(), 100);
    assert_eq!(Volume::new(101).inner(), 100);
    assert_eq!(Volume::new(255).inner(), 100);
    assert_eq!(Volume::default(), Volume(25));
    assert_eq!(Volume(130).check(), Volume(100));
    assert_eq!(PREVIOUS_THRESHOLD_DEFAULT, 3);
}

#[test]
fn image_cache_is_a_timestamp() {
    let c = ImageCache(1_700_000_000);
    assert_eq!(c.0, 1_700_000_000);
    assert_eq!(c, ImageCache(1_700_000_000));
}
