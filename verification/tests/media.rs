use dora_gst_webrtc_sink::media::{
    appsrc_element, blank_frame, bus_action, frame_pts, pipeline_description, stun_server,
    webrtc_element, BusAction, BusMessageKind, FRAME_BYTES,
};

#[test]
fn pipeline_description_is_the_vp8_webrtc_pipeline() {
    let expected = "appsrc name=videosrc caps=video/x-raw,format=RGB,width=640,height=480,framerate=30/1 \
             is-live=true format=time ! \
             videoconvert ! \
             vp8enc deadline=1 ! \
             rtpvp8pay ! \
             application/x-rtp,media=video,encoding-name=VP8,payload=96 ! \
             webrtcbin name=webrtc bundle-policy=max-bundle";
    assert_eq!(pipeline_description(), expected);
}

#[test]
fn element_names_appear_in_description() {
    let description = pipeline_description();
    assert!(description.contains(&format!("name={}", appsrc_element())));
    assert!(description.contains(&format!("name={}", webrtc_element())));
    assert_eq!(appsrc_element(), "videosrc");
    assert_eq!(webrtc_element(), "webrtc");
}

#[test]
fn stun_server_is_google() {
    assert_eq!(stun_server(), "stun://stun.l.google.com:19302");
}

#[test]
fn blank_frame_is_one_zeroed_rgb_frame() {
    let frame = blank_frame();
    assert_eq!(FRAME_BYTES, 640 * 480 * 3);
    assert_eq!(frame.len(), 921_600);
    assert!(frame.iter().all(|b| *b == 0));
}

#[test]
fn pts_is_running_time() {
    assert_eq!(frame_pts(Some(5_000_000_000), Some(1_000_000_000)), Some(4_000_000_000));
    assert_eq!(frame_pts(Some(7), Some(7)), Some(0));
    assert_eq!(frame_pts(None, Some(7)), None);
    assert_eq!(frame_pts(Some(7), None), None);
    assert_eq!(frame_pts(None, None), None);
}

#[test]
fn only_end_of_stream_stops_the_bus_watch() {
    assert_eq!(bus_action(BusMessageKind::EndOfStream), BusAction::Stop);
    assert_eq!(bus_action(BusMessageKind::StateChanged), BusAction::LogStateChange);
    assert_eq!(bus_action(BusMessageKind::Error), BusAction::LogError);
    assert_eq!(bus_action(BusMessageKind::Warning), BusAction::LogWarning);
    assert_eq!(bus_action(BusMessageKind::Other), BusAction::Ignore);
}
