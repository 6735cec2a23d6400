use vstd::prelude::*;

use crate::queue::{drained_in_order, drained_with_repeat, Delivery, OverwriteQueue, ReportQueue};

verus! {

/// What the USB side must do after a bus poll.
#[derive(Clone, Copy, Debug, PartialEq, Eq)]
pub struct UsbAction {
    /// Configure the bus now: the device has just become configured.
    pub configure_bus: bool,
    /// Look at the delivery timer: the device is configured.
    pub check_timer: bool,
}

/// The timer-driven consumer: tracks whether the USB device is configured and
/// hands out one report per elapsed period while it is.
pub struct DeliveryScheduler {
    configured: bool,
}

impl DeliveryScheduler {
    /// Whether the device counts as configured.
    pub closed spec fn is_configured(self) -> bool {
        self.configured
    }

    /// A scheduler for a device that is not configured yet.
    pub fn new() -> (s: Self)
        ensures
            !s.is_configured(),
    {
        DeliveryScheduler { configured: false }
    }

    /// Whether the device counts as configured.
    pub fn configured(&self) -> (r: bool)
        ensures
            r == self.is_configured(),
    {
        self.configured
    }

    /// Records the device state seen after a bus poll. The bus is configured
    /// once per transition into the configured state; a reset (any other
    /// state) makes the device unconfigured again, and nothing more happens
    /// in that tick.
    pub fn observe_device(&mut self, device_configured: bool) -> (a: UsbAction)
        ensures
            final(self).is_configured() == device_configured,
            a.configure_bus == (device_configured && !old(self).is_configured()),
            a.check_timer == device_configured,
    {
        let configure_bus = device_configured && !self.configured;
        self.configured = device_configured;
        UsbAction { configure_bus, check_timer: device_configured }
    }

    /// The report to push in this tick on the framed-serial path, if any: one
    /// when the device is configured and the period has elapsed, taken from
    /// `queue` by drain-with-repeat.
    pub fn deliver_from_queue(&self, elapsed: bool, queue: &mut ReportQueue) -> (d: Option<
        Delivery,
    >)
        ensures
            d is Some == (self.is_configured() && elapsed),
            d is None ==> final(queue).contents() == old(queue).contents(),
            d matches Some(x) ==> drained_with_repeat(
                old(queue).contents(),
                x,
                final(queue).contents(),
            ),
            old(queue).wf() ==> final(queue).wf(),
    {
        if self.configured && elapsed {
            Some(queue.next_delivery())
        } else {
            None
        }
    }

    /// The report to push in this tick on the terminal path, if any: one when
    /// the device is configured and the period has elapsed, taken from `ring`
    /// strictly in order.
    pub fn deliver_from_ring(&self, elapsed: bool, ring: &mut OverwriteQueue) -> (d: Option<
        Delivery,
    >)
        ensures
            d is Some == (self.is_configured() && elapsed),
            d is None ==> final(ring).contents() == old(ring).contents(),
            d matches Some(x) ==> drained_in_order(old(ring).contents(), x, final(ring).contents()),
            old(ring).wf() ==> final(ring).wf(),
    {
        if self.configured && elapsed {
            Some(ring.next_delivery())
        } else {
            None
        }
    }
}

} // verus!
