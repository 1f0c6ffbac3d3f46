use vhost_net::activation::Activation;
use vhost_net::backend::{BackendHandle, BackendReply, BackendRequest, HandleState};
use vhost_net::device::{DeviceState, Net};
use vhost_net::error::{ActivateError, BackendCall, BackendError, IoError, VhostNetError};
use vhost_net::features::{virtio_features_to_tap_offload, BASE_FEATURES};
use vhost_net::setup::{Construction, SetupReply, SetupRequest};

const FIT_MQ: u32 = 0x5102;

/// A device with `pairs` queue pairs and taps that are fit for them.
fn device(pairs: usize) -> Net<u32> {
    let mut state = Construction::Pending(Net::new_with_tap(
        "net".to_string(),
        None,
        vec![256; 2 * pairs],
    ));
    loop {
        let builder = match state {
            Construction::Pending(builder) => builder,
            Construction::Built(net) => return net,
            Construction::Failed(error) => panic!("construction failed: {:?}", error),
        };
        let reply = match builder.request() {
            SetupRequest::DuplicateTap { count } => SetupReply::Taps(vec![FIT_MQ; count]),
            SetupRequest::CreateEventFd => SetupReply::EventFd(5),
            _ => SetupReply::Done,
        };
        state = builder.advance(reply);
    }
}

/// Drives an activation to its end. The backend of pair `p` reports
/// `reported[p]`; the request equal to `fail` fails with error code 1.
fn drive(
    net: &mut Net<u32>,
    first: Activation,
    reported: &[u64],
    fail: Option<BackendRequest>,
) -> (Vec<BackendRequest>, Activation) {
    let mut requests = Vec::new();
    let mut state = first;
    loop {
        let request = match state {
            Activation::Pending(request) => request,
            end => return (requests, end),
        };
        requests.push(request);
        let reply = if Some(request) == fail {
            BackendReply::Failed(IoError { errno: 1 })
        } else {
            match request {
                BackendRequest::GetFeatures { pair } => BackendReply::Features(reported[pair]),
                _ => BackendReply::Done,
            }
        };
        state = net.resume(reply);
    }
}

fn activate(net: &mut Net<u32>, reported: &[u64]) -> (Vec<BackendRequest>, Activation) {
    let first = net.activate(42);
    drive(net, first, reported, None)
}

fn backend_error(call: BackendCall, pair: usize) -> Activation {
    Activation::Failed(ActivateError::Vhost(VhostNetError::VhostError(BackendError {
        call,
        pair,
        cause: IoError { errno: 1 },
    })))
}

#[test]
fn requests_of_an_activation_with_two_pairs() {
    let mut net = device(2);
    net.set_acked_features(0x1_0000_0483);
    let (requests, end) = activate(&mut net, &[0x1_0000_0003, 0xffff_ffff]);
    assert_eq!(
        requests,
        vec![
            BackendRequest::CreateHandle { pair: 0 },
            BackendRequest::CreateHandle { pair: 1 },
            BackendRequest::SetOwner { pair: 0 },
            BackendRequest::GetFeatures { pair: 0 },
            BackendRequest::SetFeatures { pair: 0, features: 0x1_0000_0003 },
            BackendRequest::SetTapOffload { pair: 0, offload: 0x13 },
            BackendRequest::SetOwner { pair: 1 },
            BackendRequest::GetFeatures { pair: 1 },
            BackendRequest::SetFeatures { pair: 1, features: 0x0000_0483 },
            BackendRequest::SetTapOffload { pair: 1, offload: 0x13 },
            BackendRequest::SignalActivation,
        ]
    );
    assert_eq!(end, Activation::Activated);
    assert!(net.is_activated());
}

#[test]
fn activation_applies_acked_features_to_handles_and_taps() {
    // Two queue pairs, four queues; the guest acknowledged the base
    // features only.
    let mut net = device(2);
    assert_eq!(net.queues().len(), 4);
    net.set_acked_features(BASE_FEATURES);
    let acked = net.acked_features();
    assert_eq!(acked, BASE_FEATURES);
    let reported = [0x1_3000_8080u64 | 1 << 40, 0x0142_c403];
    let (requests, end) = activate(&mut net, &reported);
    assert_eq!(end, Activation::Activated);
    assert!(net.is_activated());
    assert_eq!(net.handles().len(), 2);
    for pair in 0..2 {
        let handle = net.handles()[pair];
        assert_eq!(handle.state, HandleState::Ready);
        assert_eq!(handle.backend_features, reported[pair]);
        assert_eq!(handle.features, acked & reported[pair]);
        assert!(requests.contains(&BackendRequest::SetFeatures {
            pair,
            features: acked & reported[pair],
        }));
        assert_eq!(net.taps()[pair].offload(), virtio_features_to_tap_offload(acked));
        assert_eq!(net.taps()[pair].offload(), 0x13);
        assert!(requests.contains(&BackendRequest::SetTapOffload { pair, offload: 0x13 }));
    }
    assert_eq!(net.handles()[0].features, 0x1_3000_8080);
    assert_eq!(net.handles()[1].features, 0x0100_c403);
}

#[test]
fn activation_records_the_guest_memory() {
    let mut net = device(1);
    let (_, end) = activate(&mut net, &[0]);
    assert_eq!(end, Activation::Activated);
    assert!(matches!(net.device_state(), DeviceState::Activated(42)));
    assert_eq!(net.pending_request(), None);
}

#[test]
fn tap_offload_follows_acked_features_not_available_ones() {
    let mut net = device(1);
    // Nothing acknowledged: every offload is switched off.
    let (requests, end) = activate(&mut net, &[u64::MAX]);
    assert_eq!(end, Activation::Activated);
    assert!(requests.contains(&BackendRequest::SetFeatures { pair: 0, features: 0 }));
    assert!(requests.contains(&BackendRequest::SetTapOffload { pair: 0, offload: 0 }));
    assert_eq!(net.taps()[0].offload(), 0);
}

#[test]
fn failed_set_owner_of_second_pair_leaves_device_inactive() {
    let mut net = device(2);
    net.set_acked_features(BASE_FEATURES);
    let first = net.activate(42);
    let fail = BackendRequest::SetOwner { pair: 1 };
    let (requests, end) = drive(&mut net, first, &[u64::MAX, u64::MAX], Some(fail));
    assert_eq!(end, backend_error(BackendCall::SetOwner, 1));
    assert_eq!(requests.last(), Some(&fail));
    assert!(!net.is_activated());
    assert!(matches!(net.device_state(), DeviceState::Inactive));
    assert_eq!(net.pending_request(), None);
    assert_eq!(net.handles().len(), 2);
    assert_eq!(net.handles()[0].state, HandleState::Ready);
    assert_eq!(net.handles()[1].state, HandleState::Created);
}

#[test]
fn every_failing_call_is_named() {
    let cases = [
        (BackendRequest::CreateHandle { pair: 0 }, BackendCall::Create, 0),
        (BackendRequest::CreateHandle { pair: 1 }, BackendCall::Create, 1),
        (BackendRequest::SetOwner { pair: 0 }, BackendCall::SetOwner, 0),
        (BackendRequest::GetFeatures { pair: 1 }, BackendCall::GetFeatures, 1),
        (BackendRequest::SetFeatures { pair: 0, features: 0 }, BackendCall::SetFeatures, 0),
        (BackendRequest::SetTapOffload { pair: 1, offload: 0 }, BackendCall::SetTapOffload, 1),
    ];
    for (fail, call, pair) in cases {
        let mut net = device(2);
        let first = net.activate(42);
        let (requests, end) = drive(&mut net, first, &[0, 0], Some(fail));
        assert_eq!(requests.last(), Some(&fail));
        assert_eq!(end, backend_error(call, pair));
        assert!(!net.is_activated());
        assert_eq!(net.pending_request(), None);
    }
}

#[test]
fn failed_signal_is_a_bad_activation() {
    let mut net = device(2);
    let first = net.activate(42);
    let (requests, end) =
        drive(&mut net, first, &[0, 0], Some(BackendRequest::SignalActivation));
    assert_eq!(requests.len(), 11);
    assert_eq!(end, Activation::Failed(ActivateError::BadActivate));
    assert!(!net.is_activated());
    assert_eq!(net.handles().len(), 2);
    assert_eq!(net.handles()[1].state, HandleState::Ready);
}

#[test]
fn failed_handle_creation_leaves_no_handle() {
    let mut net = device(3);
    let first = net.activate(42);
    let fail = BackendRequest::CreateHandle { pair: 2 };
    let (requests, end) = drive(&mut net, first, &[0, 0, 0], Some(fail));
    assert_eq!(requests.len(), 3);
    assert_eq!(end, backend_error(BackendCall::Create, 2));
    assert!(net.handles().is_empty());
    // The next activation creates every handle anew.
    let (requests, end) = activate(&mut net, &[0, 0, 0]);
    assert_eq!(requests[0], BackendRequest::CreateHandle { pair: 0 });
    assert_eq!(requests[2], BackendRequest::CreateHandle { pair: 2 });
    assert_eq!(end, Activation::Activated);
    assert_eq!(net.handles().len(), 3);
}

#[test]
fn handles_are_recorded_only_when_all_are_created() {
    let mut net = device(2);
    assert_eq!(net.activate(42), Activation::Pending(BackendRequest::CreateHandle { pair: 0 }));
    assert!(net.handles().is_empty());
    assert_eq!(
        net.resume(BackendReply::Done),
        Activation::Pending(BackendRequest::CreateHandle { pair: 1 })
    );
    assert!(net.handles().is_empty());
    assert_eq!(
        net.resume(BackendReply::Done),
        Activation::Pending(BackendRequest::SetOwner { pair: 0 })
    );
    assert_eq!(net.handles(), [BackendHandle::new(), BackendHandle::new()]);
    assert_eq!(
        BackendHandle::new(),
        BackendHandle { state: HandleState::Created, backend_features: 0, features: 0 }
    );
}

#[test]
fn handle_goes_through_its_states() {
    let mut net = device(1);
    net.set_acked_features(0x83);
    net.activate(42);
    net.resume(BackendReply::Done);
    assert_eq!(net.handles()[0].state, HandleState::Created);
    assert_eq!(
        net.resume(BackendReply::Done),
        Activation::Pending(BackendRequest::GetFeatures { pair: 0 })
    );
    assert_eq!(net.handles()[0].state, HandleState::Owned);
    assert_eq!(
        net.resume(BackendReply::Features(0x81)),
        Activation::Pending(BackendRequest::SetFeatures { pair: 0, features: 0x81 })
    );
    assert_eq!(
        net.handles()[0],
        BackendHandle { state: HandleState::Owned, backend_features: 0x81, features: 0 }
    );
    assert_eq!(
        net.resume(BackendReply::Done),
        Activation::Pending(BackendRequest::SetTapOffload { pair: 0, offload: 0x03 })
    );
    assert_eq!(
        net.handles()[0],
        BackendHandle { state: HandleState::FeatureSet, backend_features: 0x81, features: 0x81 }
    );
    assert_eq!(net.taps()[0].offload(), 0x17);
    assert_eq!(
        net.resume(BackendReply::Done),
        Activation::Pending(BackendRequest::SignalActivation)
    );
    assert_eq!(net.handles()[0].state, HandleState::Ready);
    assert_eq!(net.taps()[0].offload(), 0x03);
    assert!(!net.is_activated());
    assert_eq!(net.resume(BackendReply::Done), Activation::Activated);
    assert!(net.is_activated());
}

#[test]
fn activating_twice_does_not_create_handles_twice() {
    let mut net = device(2);
    let (_, end) = activate(&mut net, &[0, 0]);
    assert_eq!(end, Activation::Activated);
    assert_eq!(net.handles().len(), net.taps().len());
    let handles = net.handles().to_vec();
    assert_eq!(net.activate(43), Activation::Failed(ActivateError::AlreadyActivated));
    assert_eq!(net.handles().len(), net.taps().len());
    assert_eq!(net.handles(), handles);
    assert!(net.is_activated());
    assert!(matches!(net.device_state(), DeviceState::Activated(42)));
    assert_eq!(net.pending_request(), None);
}

#[test]
fn activation_after_a_failure_keeps_the_handles() {
    let mut net = device(2);
    let first = net.activate(42);
    let fail = BackendRequest::GetFeatures { pair: 0 };
    let (_, end) = drive(&mut net, first, &[0, 0], Some(fail));
    assert_eq!(end, backend_error(BackendCall::GetFeatures, 0));
    assert_eq!(net.handles().len(), 2);
    let (requests, end) = activate(&mut net, &[7, 7]);
    assert_eq!(requests[0], BackendRequest::SetOwner { pair: 0 });
    assert!(!requests.iter().any(|r| matches!(r, BackendRequest::CreateHandle { .. })));
    assert_eq!(end, Activation::Activated);
    assert_eq!(net.handles().len(), 2);
}

#[test]
fn activate_during_an_activation_repeats_the_request() {
    let mut net = device(1);
    net.activate(42);
    net.resume(BackendReply::Done);
    let pending = BackendRequest::SetOwner { pair: 0 };
    assert_eq!(net.pending_request(), Some(pending));
    assert_eq!(net.activate(43), Activation::Pending(pending));
    assert_eq!(net.pending_request(), Some(pending));
    let (_, end) = drive(&mut net, Activation::Pending(pending), &[0], None);
    assert_eq!(end, Activation::Activated);
    // The memory of the activation that was under way is recorded.
    assert!(matches!(net.device_state(), DeviceState::Activated(42)));
}

#[test]
fn resume_without_activation() {
    let mut net = device(1);
    for reply in [
        BackendReply::Done,
        BackendReply::Features(1),
        BackendReply::Failed(IoError { errno: 1 }),
    ] {
        assert_eq!(net.resume(reply), Activation::Failed(ActivateError::NotActivating));
        assert!(!net.is_activated());
        assert!(net.handles().is_empty());
    }
}

#[test]
fn resume_after_activation_reports_the_device_activated() {
    let mut net = device(1);
    activate(&mut net, &[0]);
    assert_eq!(net.resume(BackendReply::Done), Activation::Activated);
    assert_eq!(net.resume(BackendReply::Failed(IoError { errno: 1 })), Activation::Activated);
    assert!(net.is_activated());
}

#[test]
fn backend_reply_of_the_wrong_kind_is_passed_over() {
    let mut net = device(1);
    let request = net.activate(42);
    assert_eq!(request, Activation::Pending(BackendRequest::CreateHandle { pair: 0 }));
    assert_eq!(net.resume(BackendReply::Features(9)), request);
    assert!(net.handles().is_empty());
    net.resume(BackendReply::Done);
    net.resume(BackendReply::Done);
    let request = Activation::Pending(BackendRequest::GetFeatures { pair: 0 });
    assert_eq!(net.resume(BackendReply::Done), request);
    assert_eq!(net.handles()[0].backend_features, 0);
    assert_eq!(net.pending_request(), Some(BackendRequest::GetFeatures { pair: 0 }));
    net.resume(BackendReply::Features(0));
    net.resume(BackendReply::Done);
    net.resume(BackendReply::Done);
    let request = Activation::Pending(BackendRequest::SignalActivation);
    assert_eq!(net.resume(BackendReply::Features(1)), request);
    assert!(!net.is_activated());
    assert_eq!(net.resume(BackendReply::Done), Activation::Activated);
}

#[test]
fn device_without_queue_pairs_only_signals() {
    let mut net = device(0);
    let (requests, end) = activate(&mut net, &[]);
    assert_eq!(requests, vec![BackendRequest::SignalActivation]);
    assert_eq!(end, Activation::Activated);
    assert!(net.handles().is_empty());
}

#[test]
fn acked_features_are_limited_to_available_ones() {
    let mut net = device(1);
    net.set_acked_features(u64::MAX);
    assert_eq!(net.acked_features(), 0x1_3100_c483);
    net.set_acked_features(0x42_0003);
    assert_eq!(net.acked_features(), 0x3);
    assert_eq!(net.acked_features() & !net.avail_features(), 0);
    let mut net = device(2);
    net.set_acked_features(0x42_0003);
    assert_eq!(net.acked_features(), 0x42_0003);
    net.set_acked_features(0);
    assert_eq!(net.acked_features(), 0);
}

#[test]
fn acked_features_are_fixed_once_activation_has_begun() {
    let mut net = device(1);
    net.set_acked_features(0x83);
    net.activate(42);
    net.set_acked_features(0x1);
    assert_eq!(net.acked_features(), 0x83);
    let pending = Activation::Pending(net.pending_request().unwrap());
    let (_, end) = drive(&mut net, pending, &[0xff], None);
    assert_eq!(end, Activation::Activated);
    net.set_acked_features(0);
    assert_eq!(net.acked_features(), 0x83);
    assert_eq!(net.handles()[0].features, 0x83);
}

#[test]
fn acked_features_can_change_after_a_failed_activation() {
    let mut net = device(1);
    net.set_acked_features(0x83);
    let first = net.activate(42);
    let fail = BackendRequest::SetTapOffload { pair: 0, offload: 0x03 };
    let (_, end) = drive(&mut net, first, &[0xff], Some(fail));
    assert_eq!(end, backend_error(BackendCall::SetTapOffload, 0));
    // The tap keeps the offload flags it had.
    assert_eq!(net.taps()[0].offload(), 0x17);
    net.set_acked_features(0x2);
    assert_eq!(net.acked_features(), 0x2);
    let (requests, end) = activate(&mut net, &[0xff]);
    assert_eq!(end, Activation::Activated);
    assert!(requests.contains(&BackendRequest::SetFeatures { pair: 0, features: 0x2 }));
    assert_eq!(net.taps()[0].offload(), 0x01);
    assert_eq!(net.handles()[0].features, 0x2);
}
