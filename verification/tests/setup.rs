use vhost_net::config::MacAddr;
use vhost_net::device::{DeviceState, Net};
use vhost_net::error::{IoError, TapError, VhostNetError};
use vhost_net::features::{VIRTIO_NET_F_CTRL_VQ, VIRTIO_NET_F_MQ};
use vhost_net::queue::{EventFd, Queue};
use vhost_net::setup::{Construction, NetBuilder, SetupReply, SetupRequest, SetupStage};
use vhost_net::tap::Tap;

const FIT: u32 = 0x5002;
const FIT_MQ: u32 = 0x5102;

fn pending(construction: Construction<u32>) -> NetBuilder<u32> {
    match construction {
        Construction::Pending(builder) => builder,
        other => panic!("expected a builder, got {:?}", other),
    }
}

fn failed(construction: Construction<u32>) -> VhostNetError {
    match construction {
        Construction::Failed(error) => error,
        other => panic!("expected an error, got {:?}", other),
    }
}

fn built(construction: Construction<u32>) -> Net<u32> {
    match construction {
        Construction::Built(net) => net,
        other => panic!("expected a device, got {:?}", other),
    }
}

/// Answers every request as a well-behaved system would, with taps that
/// carry `flags`, and returns the requests made and how it ended.
fn run(builder: NetBuilder<u32>, flags: u32) -> (Vec<SetupRequest>, Construction<u32>) {
    let mut requests = Vec::new();
    let mut fd = 100;
    let mut state = Construction::Pending(builder);
    loop {
        let builder = match state {
            Construction::Pending(builder) => builder,
            done => return (requests, done),
        };
        let request = builder.request();
        requests.push(request);
        let reply = match request {
            SetupRequest::DuplicateTap { count } => SetupReply::Taps(vec![flags; count]),
            SetupRequest::CreateEventFd => {
                fd += 1;
                SetupReply::EventFd(fd)
            }
            _ => SetupReply::Done,
        };
        state = builder.advance(reply);
    }
}

fn device(queues: usize) -> Net<u32> {
    let builder = Net::new_with_tap("net".to_string(), None, vec![256; queues]);
    built(run(builder, FIT_MQ).1)
}

/// Advances `builder` with well-behaved replies until it reaches `stage`.
fn reach(builder: NetBuilder<u32>, stage: SetupStage) -> NetBuilder<u32> {
    let mut builder = builder;
    let mut fd = 100;
    while builder.stage() != stage {
        let reply = match builder.request() {
            SetupRequest::DuplicateTap { count } => SetupReply::Taps(vec![FIT_MQ; count]),
            SetupRequest::CreateEventFd => {
                fd += 1;
                SetupReply::EventFd(fd)
            }
            _ => SetupReply::Done,
        };
        builder = pending(builder.advance(reply));
    }
    builder
}

fn cause() -> IoError {
    IoError { errno: 22 }
}

#[test]
fn new_starts_by_opening_the_tap() {
    let builder: NetBuilder<u32> = Net::new("net".to_string(), "tap0", None, vec![256, 256]);
    assert_eq!(builder.stage(), SetupStage::OpenTap);
    assert_eq!(builder.request(), SetupRequest::OpenTap { multi_queue: false });
    assert_eq!(builder.tap_if_name(), "tap0");
    assert_eq!(builder.vq_pairs(), 1);
}

#[test]
fn new_asks_for_multi_queue_tap_when_there_are_several_pairs() {
    let builder: NetBuilder<u32> = Net::new("net".to_string(), "tap0", None, vec![256; 4]);
    assert_eq!(builder.request(), SetupRequest::OpenTap { multi_queue: true });
    assert_eq!(builder.vq_pairs(), 2);
}

#[test]
fn new_with_tap_starts_by_duplicating_the_tap() {
    let builder: NetBuilder<u32> = Net::new_with_tap("net".to_string(), None, vec![256; 6]);
    assert_eq!(builder.stage(), SetupStage::DuplicateTap);
    assert_eq!(builder.request(), SetupRequest::DuplicateTap { count: 3 });
    assert_eq!(builder.tap_if_name(), "");
}

#[test]
fn requests_of_new_with_two_queue_pairs() {
    let builder = Net::new("net".to_string(), "tap0", None, vec![256; 4]);
    let (requests, end) = run(builder, FIT_MQ);
    assert_eq!(
        requests,
        vec![
            SetupRequest::OpenTap { multi_queue: true },
            SetupRequest::SetOffload { tap: 0, offload: 0x17 },
            SetupRequest::SetVnetHdrSize { tap: 0, size: 12 },
            SetupRequest::DuplicateTap { count: 2 },
            SetupRequest::SetOffload { tap: 0, offload: 0x17 },
            SetupRequest::SetVnetHdrSize { tap: 0, size: 12 },
            SetupRequest::SetOffload { tap: 1, offload: 0x17 },
            SetupRequest::SetVnetHdrSize { tap: 1, size: 12 },
            SetupRequest::CreateEventFd,
            SetupRequest::CreateEventFd,
            SetupRequest::CreateEventFd,
            SetupRequest::CreateEventFd,
            SetupRequest::CreateEventFd,
            SetupRequest::CreateEventFd,
        ]
    );
    built(end);
}

#[test]
fn requests_of_new_with_tap_with_one_queue_pair() {
    let builder = Net::new_with_tap("net".to_string(), None, vec![128, 64]);
    let (requests, end) = run(builder, FIT);
    assert_eq!(
        requests,
        vec![
            SetupRequest::DuplicateTap { count: 1 },
            SetupRequest::SetOffload { tap: 0, offload: 0x17 },
            SetupRequest::SetVnetHdrSize { tap: 0, size: 12 },
            SetupRequest::CreateEventFd,
            SetupRequest::CreateEventFd,
            SetupRequest::CreateEventFd,
            SetupRequest::CreateEventFd,
        ]
    );
    built(end);
}

#[test]
fn built_device_holds_what_was_reported() {
    let mac = MacAddr::from_bytes([2, 0, 0, 0, 0, 9]);
    let builder = Net::new("net7".to_string(), "tap0", Some(mac), vec![128, 64, 32, 16]);
    let net = built(run(builder, FIT_MQ).1);
    assert_eq!(net.id(), "net7");
    assert_eq!(net.vq_pairs(), 2);
    let tap = Tap { if_flags: FIT_MQ, offload: 0x17, vnet_hdr_size: 12 };
    assert_eq!(net.taps(), [tap, tap]);
    assert_eq!(net.avail_features(), 0x1_3142_c483);
    assert_eq!(net.acked_features(), 0);
    assert!(net.handles().is_empty());
    assert_eq!(
        net.queues(),
        [Queue::new(128), Queue::new(64), Queue::new(32), Queue::new(16)]
    );
    assert_eq!(
        net.queue_events(),
        [EventFd::new(101), EventFd::new(102), EventFd::new(103), EventFd::new(104)]
    );
    assert_eq!(net.interrupt_evt().as_raw_fd(), 105);
    assert_eq!(net.activate_evt().as_raw_fd(), 106);
    assert_eq!(net.config_space().as_bytes(), [2, 0, 0, 0, 0, 9, 0, 0, 2, 0, 0xdc, 0x05]);
    assert_eq!(net.guest_mac(), Some(mac));
    assert!(matches!(net.device_state(), DeviceState::Inactive));
    assert!(!net.is_activated());
    assert_eq!(net.pending_request(), None);
}

#[test]
fn fresh_queue_is_not_set_up() {
    assert_eq!(
        Queue::new(256),
        Queue {
            max_size: 256,
            size: 256,
            ready: false,
            desc_table: 0,
            avail_ring: 0,
            used_ring: 0,
            next_avail: 0,
            next_used: 0,
        }
    );
}

#[test]
fn even_queue_counts_give_matching_device() {
    for queues in [2usize, 4, 6, 8, 16, 64] {
        let net = device(queues);
        assert_eq!(net.queues().len(), queues);
        assert_eq!(net.queue_events().len(), queues);
        assert_eq!(net.taps().len(), queues / 2);
        assert_eq!(net.vq_pairs(), queues / 2);
    }
}

#[test]
fn odd_queue_count_gives_a_spare_queue() {
    let net = device(3);
    assert_eq!(net.queues().len(), 3);
    assert_eq!(net.queue_events().len(), 3);
    assert_eq!(net.taps().len(), 1);
}

#[test]
fn device_without_queues() {
    let builder = Net::new_with_tap("net".to_string(), None, vec![]);
    let (requests, end) = run(builder, FIT);
    assert_eq!(
        requests,
        vec![
            SetupRequest::DuplicateTap { count: 0 },
            SetupRequest::CreateEventFd,
            SetupRequest::CreateEventFd,
        ]
    );
    let net = built(end);
    assert!(net.queues().is_empty());
    assert!(net.queue_events().is_empty());
    assert!(net.taps().is_empty());
    assert_eq!(net.avail_features(), 0x1_3100_c483);
}

#[test]
fn multi_queue_features_follow_the_number_of_taps() {
    let single = device(2);
    assert_eq!(single.taps().len(), 1);
    assert_eq!(single.avail_features() & (1 << VIRTIO_NET_F_MQ), 0);
    assert_eq!(single.avail_features() & (1 << VIRTIO_NET_F_CTRL_VQ), 0);
    for queues in [4usize, 6, 10] {
        let multi = device(queues);
        assert!(multi.taps().len() > 1);
        assert_ne!(multi.avail_features() & (1 << VIRTIO_NET_F_MQ), 0);
        assert_ne!(multi.avail_features() & (1 << VIRTIO_NET_F_CTRL_VQ), 0);
    }
}

#[test]
fn config_holds_low_sixteen_bits_of_pair_count() {
    let net = device(2 * 0x1_0001);
    assert_eq!(net.vq_pairs(), 0x1_0001);
    assert_eq!(net.config_space().as_bytes()[8..10], [1, 0]);
}

#[test]
fn failure_to_open_the_tap() {
    let builder: NetBuilder<u32> = Net::new("net".to_string(), "tap0", None, vec![256; 2]);
    assert_eq!(
        failed(builder.advance(SetupReply::Failed(cause()))),
        VhostNetError::TapOpen(TapError { cause: cause() })
    );
}

#[test]
fn failure_to_duplicate_the_tap() {
    let builder: NetBuilder<u32> = Net::new_with_tap("net".to_string(), None, vec![256; 4]);
    assert_eq!(
        failed(builder.advance(SetupReply::Failed(IoError { errno: 16 }))),
        VhostNetError::TapOpen(TapError { cause: IoError { errno: 16 } })
    );
}

#[test]
fn failure_to_set_offload() {
    let start = || Net::new("net".to_string(), "tap0", None, vec![256; 4]);
    for stage in [SetupStage::PrimaryOffload, SetupStage::TapOffload(0), SetupStage::TapOffload(1)] {
        let builder = reach(start(), stage);
        assert_eq!(
            failed(builder.advance(SetupReply::Failed(cause()))),
            VhostNetError::TapSetOffload(TapError { cause: cause() })
        );
    }
}

#[test]
fn failure_to_set_vnet_header_size() {
    let start = || Net::new("net".to_string(), "tap0", None, vec![256; 4]);
    for stage in [
        SetupStage::PrimaryVnetHdrSize,
        SetupStage::TapVnetHdrSize(0),
        SetupStage::TapVnetHdrSize(1),
    ] {
        let builder = reach(start(), stage);
        assert_eq!(
            failed(builder.advance(SetupReply::Failed(cause()))),
            VhostNetError::TapSetVnetHdrSize(TapError { cause: cause() })
        );
    }
}

#[test]
fn failure_to_create_an_event_descriptor() {
    let start = || Net::new_with_tap("net".to_string(), None, vec![256; 2]);
    for stage in [
        SetupStage::QueueEvent(0),
        SetupStage::QueueEvent(1),
        SetupStage::IrqEvent,
        SetupStage::ActivateEvent(EventFd::new(103)),
    ] {
        let builder = reach(start(), stage);
        assert_eq!(
            failed(builder.advance(SetupReply::Failed(IoError { errno: 24 }))),
            VhostNetError::EventFd(IoError { errno: 24 })
        );
    }
}

#[test]
fn tap_without_required_flags_ends_the_construction() {
    let builder: NetBuilder<u32> = Net::new_with_tap("net".to_string(), None, vec![256; 2]);
    let error = failed(builder.advance(SetupReply::Taps(vec![0x4000])));
    assert_eq!(error, VhostNetError::MissingFlags("IFF_TAP, IFF_NO_PI".to_string()));
}

#[test]
fn single_queue_tap_cannot_serve_two_pairs() {
    let builder: NetBuilder<u32> = Net::new_with_tap("net".to_string(), None, vec![256; 4]);
    let error = failed(builder.advance(SetupReply::Taps(vec![FIT, FIT])));
    assert_eq!(error, VhostNetError::MissingFlags("IFF_MULTI_QUEUE".to_string()));
}

#[test]
fn second_tap_is_checked_after_the_first_is_configured() {
    let builder: NetBuilder<u32> = Net::new_with_tap("net".to_string(), None, vec![256; 4]);
    let builder = pending(builder.advance(SetupReply::Taps(vec![FIT_MQ, 0x0102])));
    assert_eq!(builder.request(), SetupRequest::SetOffload { tap: 0, offload: 0x17 });
    let builder = pending(builder.advance(SetupReply::Done));
    assert_eq!(builder.request(), SetupRequest::SetVnetHdrSize { tap: 0, size: 12 });
    let error = failed(builder.advance(SetupReply::Done));
    assert_eq!(error, VhostNetError::MissingFlags("IFF_NO_PI, IFF_VNET_HDR".to_string()));
}

#[test]
fn wrong_number_of_taps_is_passed_over() {
    let builder: NetBuilder<u32> = Net::new_with_tap("net".to_string(), None, vec![256; 4]);
    let builder = pending(builder.advance(SetupReply::Taps(vec![FIT_MQ])));
    assert_eq!(builder.stage(), SetupStage::DuplicateTap);
    let builder = pending(builder.advance(SetupReply::Taps(vec![FIT_MQ; 3])));
    assert_eq!(builder.stage(), SetupStage::DuplicateTap);
    assert_eq!(builder.request(), SetupRequest::DuplicateTap { count: 2 });
    let builder = pending(builder.advance(SetupReply::Taps(vec![FIT_MQ; 2])));
    assert_eq!(builder.stage(), SetupStage::TapOffload(0));
}

#[test]
fn setup_reply_of_the_wrong_kind_is_passed_over() {
    let builder: NetBuilder<u32> = Net::new("net".to_string(), "tap0", None, vec![256; 2]);
    let builder = pending(builder.advance(SetupReply::EventFd(3)));
    assert_eq!(builder.stage(), SetupStage::OpenTap);
    let builder = pending(builder.advance(SetupReply::Taps(vec![FIT])));
    assert_eq!(builder.stage(), SetupStage::OpenTap);
    let builder = reach(builder, SetupStage::DuplicateTap);
    let builder = pending(builder.advance(SetupReply::Done));
    assert_eq!(builder.stage(), SetupStage::DuplicateTap);
    let builder = reach(builder, SetupStage::QueueEvent(1));
    let builder = pending(builder.advance(SetupReply::Done));
    assert_eq!(builder.stage(), SetupStage::QueueEvent(1));
    let builder = pending(builder.advance(SetupReply::Taps(vec![FIT])));
    assert_eq!(builder.stage(), SetupStage::QueueEvent(1));
    assert_eq!(builder.request(), SetupRequest::CreateEventFd);
    let (_, end) = run(builder, FIT);
    let net = built(end);
    assert_eq!(net.queue_events().len(), 2);
}

#[test]
fn stages_follow_each_other() {
    let mut builder: NetBuilder<u32> = Net::new("net".to_string(), "tap0", None, vec![256; 2]);
    let expected = [
        SetupStage::OpenTap,
        SetupStage::PrimaryOffload,
        SetupStage::PrimaryVnetHdrSize,
        SetupStage::DuplicateTap,
        SetupStage::TapOffload(0),
        SetupStage::TapVnetHdrSize(0),
        SetupStage::QueueEvent(0),
        SetupStage::QueueEvent(1),
        SetupStage::IrqEvent,
        SetupStage::ActivateEvent(EventFd::new(7)),
    ];
    for (index, stage) in expected.iter().enumerate() {
        assert_eq!(builder.stage(), *stage);
        let reply = match builder.request() {
            SetupRequest::DuplicateTap { count } => SetupReply::Taps(vec![FIT; count]),
            SetupRequest::CreateEventFd => SetupReply::EventFd(7),
            _ => SetupReply::Done,
        };
        let next = builder.advance(reply);
        if index + 1 == expected.len() {
            built(next);
            return;
        }
        builder = pending(next);
    }
}
