//! What holds of device attachment across calls.

use vstd::prelude::*;
use crate::attach::{
    spec_enqueue, spec_live_attach, spec_pending, spec_share_fs_attach, DeviceActionView, VIRTIO_FS,
};
use crate::boot::spec_shared_fs_devices;
use crate::config::{spec_fs_config, FsConfigView};
use crate::device::{DeviceView, ShareFsDeviceConfigView, VmmState};
use crate::error::DeviceErrorView;
use crate::hypervisor::CloudHypervisorInnerView;
use crate::path::{spec_is_absolute, spec_scoped};
use crate::replay::{spec_next_pending, spec_replay_step, ReplayEventView, ReplayStepView};
use crate::settings::spec_boot_fs_config;

verus! {

/// The queue after each of `arrivals` was added in turn to a machine that
/// does not run.
pub open spec fn spec_enqueue_all(
    pending_devices: Option<Seq<DeviceView>>,
    arrivals: Seq<DeviceView>,
) -> Option<Seq<DeviceView>>
    decreases arrivals.len(),
{
    if arrivals.len() == 0 {
        pending_devices
    } else {
        spec_enqueue(spec_enqueue_all(pending_devices, arrivals.drop_last()), arrivals.last())
    }
}

/// The devices of a queue for which a replay has something to do, in the
/// order in which it takes them up.
pub open spec fn spec_replay_order(devices: Seq<DeviceView>) -> Seq<DeviceView> {
    devices.filter(|device: DeviceView| !(device is HybridVsock))
}

/// Whether a replay that finds the machine as `pre`, is told `first` at its
/// first step and `Attached` at every other, may send the requests
/// `attached`, in this order, and end completed with the machine as `post`.
pub open spec fn spec_replay_run(
    pre: CloudHypervisorInnerView,
    first: ReplayEventView,
    attached: Seq<FsConfigView>,
    post: CloudHypervisorInnerView,
) -> bool
    decreases attached.len(),
{
    if attached.len() == 0 {
        spec_replay_step(pre, first, post, ReplayStepView::Completed)
    } else {
        exists|mid: CloudHypervisorInnerView|
            {
                &&& #[trigger] spec_replay_step(pre, first, mid, ReplayStepView::Attach(attached[0]))
                &&& spec_replay_run(mid, ReplayEventView::Attached, attached.drop_first(), post)
            }
    }
}

/// Devices added before the machine runs are queued in reverse of their
/// arrival: the latest is in front, and what was queued before stays behind
/// them all.
pub proof fn lemma_queue_is_reverse_of_arrival(
    pending_devices: Option<Seq<DeviceView>>,
    arrivals: Seq<DeviceView>,
)
    requires
        arrivals.len() > 0,
    ensures
        spec_enqueue_all(pending_devices, arrivals) == Some(
            arrivals.reverse() + spec_pending(pending_devices),
        ),
    decreases arrivals.len(),
{
    let before = arrivals.drop_last();
    if before.len() == 0 {
        assert(arrivals.reverse() =~= seq![arrivals.last()]);
    } else {
        lemma_queue_is_reverse_of_arrival(pending_devices, before);
        assert(arrivals.reverse() =~= seq![arrivals.last()] + before.reverse());
    }
}

/// A step of a replay on a machine that does not run is refused with the
/// state it found, and leaves the machine and its queue as they were.
pub proof fn lemma_replay_needs_running_machine(
    pre: CloudHypervisorInnerView,
    event: ReplayEventView,
    post: CloudHypervisorInnerView,
    step: ReplayStepView,
)
    requires
        spec_replay_step(pre, event, post, step),
        pre.state != VmmState::VmRunning,
    ensures
        post == pre,
        step == ReplayStepView::Refused(
            DeviceErrorView::InvalidPreconditionState { state: pre.state },
        ),
{
}

/// A step of a replay never puts a device into the queue: what it leaves is
/// the end of what it found. The queue is gone once the replay is completed or
/// aborted.
pub proof fn lemma_replay_step_only_drains(
    pre: CloudHypervisorInnerView,
    event: ReplayEventView,
    post: CloudHypervisorInnerView,
    step: ReplayStepView,
)
    requires
        spec_replay_step(pre, event, post, step),
    ensures
        spec_pending(post.pending_devices).is_suffix_of(spec_pending(pre.pending_devices)),
        step is Completed || step is Aborted ==> post.pending_devices is None,
        step is Attach ==> spec_pending(post.pending_devices).len() < spec_pending(
            pre.pending_devices,
        ).len(),
{
    let found = spec_pending(pre.pending_devices);
    let left = spec_pending(post.pending_devices);
    lemma_next_pending_leaves_suffix(found);
    if left.len() == 0 {
        assert(left =~= found.skip(found.len() as int));
    } else if left == found {
        assert(left =~= found.skip(0));
    }
}

/// What is left behind the device that a replay takes up is the end of the queue.
proof fn lemma_next_pending_leaves_suffix(devices: Seq<DeviceView>)
    ensures
        spec_next_pending(devices) matches Some((_, rest)) ==> rest.is_suffix_of(devices)
            && rest.len() < devices.len(),
    decreases devices.len(),
{
    if devices.len() > 0 {
        let behind = devices.drop_first();
        assert(behind =~= devices.skip(1));
        if devices[0] is HybridVsock {
            lemma_next_pending_leaves_suffix(behind);
            if let Some((_, rest)) = spec_next_pending(behind) {
                let n = behind.len() - rest.len();
                assert(rest =~= devices.skip(n + 1));
            }
        }
    }
}

/// A replay takes the devices up from the front of the queue: the device of
/// its next step is the first in replay order, and what is left holds the
/// others in the same order.
pub proof fn lemma_replay_takes_front(devices: Seq<DeviceView>)
    ensures
        match spec_next_pending(devices) {
            Some((device, rest)) => spec_replay_order(devices) == seq![device] + spec_replay_order(
                rest,
            ),
            None => spec_replay_order(devices) == Seq::<DeviceView>::empty(),
        },
    decreases devices.len(),
{
    let needs_request = |device: DeviceView| !(device is HybridVsock);
    if devices.len() == 0 {
        assert(devices.filter(needs_request).len() <= devices.len()) by {
            devices.lemma_filter_len(needs_request);
        }
        assert(spec_replay_order(devices) =~= Seq::<DeviceView>::empty());
    } else {
        let behind = devices.drop_first();
        assert(devices =~= seq![devices[0]] + behind);
        behind.lemma_filter_prepend(devices[0], needs_request);
        if devices[0] is HybridVsock {
            lemma_replay_takes_front(behind);
            assert(Seq::<DeviceView>::empty() + spec_replay_order(behind) =~= spec_replay_order(
                behind,
            ));
        }
    }
}

/// Devices that were added before the machine ran are taken up by the replay
/// last in, first out.
pub proof fn lemma_replay_is_last_in_first_out(arrivals: Seq<DeviceView>)
    ensures
        spec_replay_order(spec_pending(spec_enqueue_all(None, arrivals))) == spec_replay_order(
            arrivals,
        ).reverse(),
        spec_replay_order(spec_pending(spec_enqueue_all(None, arrivals))) == spec_replay_order(
            arrivals.reverse(),
        ),
    decreases arrivals.len(),
{
    let needs_request = |device: DeviceView| !(device is HybridVsock);
    if arrivals.len() == 0 {
        assert(arrivals.reverse() =~= arrivals);
        assert(arrivals.filter(needs_request).len() <= arrivals.len()) by {
            arrivals.lemma_filter_len(needs_request);
        }
        assert(spec_replay_order(arrivals).reverse() =~= spec_replay_order(arrivals));
    } else {
        lemma_queue_is_reverse_of_arrival(None, arrivals);
        assert(arrivals.reverse() + Seq::<DeviceView>::empty() =~= arrivals.reverse());
        lemma_filter_of_reverse(arrivals);
    }
}

/// The replay order of a reversed queue is the reversed replay order.
proof fn lemma_filter_of_reverse(devices: Seq<DeviceView>)
    ensures
        spec_replay_order(devices.reverse()) == spec_replay_order(devices).reverse(),
    decreases devices.len(),
{
    let needs_request = |device: DeviceView| !(device is HybridVsock);
    if devices.len() == 0 {
        assert(devices.reverse() =~= devices);
        assert(devices.filter(needs_request).len() <= devices.len()) by {
            devices.lemma_filter_len(needs_request);
        }
        assert(spec_replay_order(devices).reverse() =~= spec_replay_order(devices));
    } else {
        let before = devices.drop_last();
        let last = devices.last();
        let kept = before.filter(needs_request);
        lemma_filter_of_reverse(before);
        assert(devices.reverse() =~= seq![last] + before.reverse());
        before.reverse().lemma_filter_prepend(last, needs_request);
        assert(devices =~= before.push(last));
        before.lemma_filter_push(last, needs_request);
        if needs_request(last) {
            assert(kept.push(last).reverse() =~= seq![last] + kept.reverse());
        } else {
            assert(Seq::<DeviceView>::empty() + kept.reverse() =~= kept.reverse());
        }
    }
}

/// A replay on a running machine that ends completed has sent one request
/// for each device in replay order, in that order, each an outcome of
/// attaching its device, and has left no queue.
pub proof fn lemma_replay_applies_in_order(
    pre: CloudHypervisorInnerView,
    first: ReplayEventView,
    attached: Seq<FsConfigView>,
    post: CloudHypervisorInnerView,
)
    requires
        pre.state == VmmState::VmRunning,
        !(first is Failed),
        spec_replay_run(pre, first, attached, post),
    ensures
        post == pre.with_pending(None),
        attached.len() == spec_replay_order(spec_pending(pre.pending_devices)).len(),
        forall|i: int|
            0 <= i < attached.len() ==> spec_live_attach(
                pre.has_api_socket,
                #[trigger] spec_replay_order(spec_pending(pre.pending_devices))[i],
                Ok(DeviceActionView::AddFs(attached[i])),
            ),
    decreases attached.len(),
{
    let found = spec_pending(pre.pending_devices);
    lemma_replay_takes_front(found);
    if attached.len() > 0 {
        let mid = choose|mid: CloudHypervisorInnerView|
            {
                &&& #[trigger] spec_replay_step(pre, first, mid, ReplayStepView::Attach(attached[0]))
                &&& spec_replay_run(mid, ReplayEventView::Attached, attached.drop_first(), post)
            };
        let (device, rest) = spec_next_pending(found)->0;
        lemma_replay_applies_in_order(mid, ReplayEventView::Attached, attached.drop_first(), post);
        let order = spec_replay_order(found);
        assert(order =~= seq![device] + spec_replay_order(rest));
        assert forall|i: int| 0 <= i < attached.len() implies spec_live_attach(
            pre.has_api_socket,
            #[trigger] order[i],
            Ok(DeviceActionView::AddFs(attached[i])),
        ) by {
            if i > 0 {
                assert(order[i] == spec_replay_order(rest)[i - 1]);
                assert(attached[i] == attached.drop_first()[i - 1]);
            }
        }
    }
}

/// The number of queues and the queue size of a share are the same whether
/// it is attached to a running machine or derived at boot: the defaults
/// where the request names no queues, else what it names.
pub proof fn lemma_queue_defaults_agree(
    has_api_socket: bool,
    cfg: ShareFsDeviceConfigView,
    vm_path: Seq<char>,
    live: FsConfigView,
)
    requires
        spec_share_fs_attach(has_api_socket, cfg, Ok(live)),
    ensures
        spec_boot_fs_config(cfg, vm_path) matches Ok(boot) && boot.num_queues == live.num_queues
            && boot.queue_size == live.queue_size && boot.tag == live.tag,
        live.num_queues > 0,
        cfg.queue_num == 0 ==> live.num_queues == 1 && live.queue_size == 1024,
        cfg.queue_num > 0 ==> live.num_queues == cfg.queue_num && live.queue_size
            == cfg.queue_size,
{
}

/// A record always has a queue, and its queue size fits in 16 bits. The queue
/// size is zero only where the request names queues of size zero.
pub proof fn lemma_record_has_queues(
    cfg: ShareFsDeviceConfigView,
    socket: Seq<char>,
    fs: FsConfigView,
)
    requires
        spec_fs_config(cfg, Ok(socket)) == Ok::<FsConfigView, DeviceErrorView>(fs),
    ensures
        fs.num_queues > 0,
        fs.queue_size <= u16::MAX,
        fs.queue_size == 0 <==> cfg.queue_num > 0 && cfg.queue_size == 0,
{
}

/// A share of the right kind, for a machine with a control socket, cannot be
/// attached to the running machine for its queue size exactly when it
/// cannot be derived at boot.
pub proof fn lemma_queue_size_fails_alike(cfg: ShareFsDeviceConfigView, vm_path: Seq<char>)
    requires
        cfg.fs_type == VIRTIO_FS@,
    ensures
        spec_share_fs_attach(true, cfg, Err(DeviceErrorView::NumericConversionOverflow))
            <==> spec_boot_fs_config(cfg, vm_path) is Err,
        spec_boot_fs_config(cfg, vm_path) is Err <==> cfg.queue_num > 0 && cfg.queue_size
            > u16::MAX,
{
    if spec_boot_fs_config(cfg, vm_path) is Err {
        let unresolved = Err::<Seq<char>, Seq<char>>(Seq::empty());
        assert(spec_scoped(unresolved) && Err::<FsConfigView, DeviceErrorView>(
            DeviceErrorView::NumericConversionOverflow,
        ) == spec_fs_config(cfg, unresolved));
    }
}

/// An absolute socket path is kept as it is, on a running machine as at
/// boot: both give the same record.
pub proof fn lemma_absolute_socket_is_kept(
    has_api_socket: bool,
    cfg: ShareFsDeviceConfigView,
    vm_path: Seq<char>,
    live: FsConfigView,
)
    requires
        spec_is_absolute(cfg.sock_path),
        spec_share_fs_attach(has_api_socket, cfg, Ok(live)),
    ensures
        live.socket == cfg.sock_path,
        spec_boot_fs_config(cfg, vm_path) == Ok::<FsConfigView, DeviceErrorView>(live),
{
}

/// The socket of a share that is attached to a running machine is an
/// absolute path.
pub proof fn lemma_live_socket_is_absolute(
    has_api_socket: bool,
    cfg: ShareFsDeviceConfigView,
    live: FsConfigView,
)
    requires
        spec_share_fs_attach(has_api_socket, cfg, Ok(live)),
    ensures
        spec_is_absolute(live.socket),
{
}

/// Reading the shares takes the queue away: a second reading finds none,
/// whatever the first one gave.
pub proof fn lemma_second_reading_finds_nothing(inner: CloudHypervisorInnerView)
    ensures
        spec_shared_fs_devices(inner.with_pending(None)) == Ok::<
            Option<Seq<FsConfigView>>,
            DeviceErrorView,
        >(None),
{
}

} // verus!
