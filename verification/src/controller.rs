//! The controller shared between the integration driver and the worker:
//! the enable intent, the concurrency-safe running flag, the device
//! configuration, and the two endpoints of the single-slot mailbox.

use vstd::prelude::*;
use core::sync::atomic::{AtomicBool, Ordering};
use std::sync::Arc;
use crate::channel::{mailbox_send, mailbox_try_recv, new_mailbox};
use crate::data::WebcamFacialData;
use crate::lifecycle::{spec_tick_action, tick_action, TickAction};

verus! {

/// One installation's controller. `control` is the externally toggled
/// enable intent; `status` is the running flag both execution contexts
/// read, and the only shared mutable state besides the mailbox.
pub struct WebcamFacialController {
    pub sender: crossbeam_channel::Sender<WebcamFacialData>,
    pub receiver: crossbeam_channel::Receiver<WebcamFacialData>,
    pub control: bool,
    pub status: Arc<AtomicBool>,
    pub config_device: String,
    pub config_width: u32,
    pub config_height: u32,
    pub config_framerate: u32,
}

impl WebcamFacialController {
    /// A fresh controller: mailbox of capacity one, running flag down,
    /// enable intent from the autostart setting.
    pub fn new(device: String, width: u32, height: u32, framerate: u32, autostart: bool) -> (c:
        Self)
        ensures
            c.control == autostart,
            c.config_device@ == device@,
            c.config_width == width,
            c.config_height == height,
            c.config_framerate == framerate,
    {
        let (sender, receiver) = new_mailbox();
        WebcamFacialController {
            sender,
            receiver,
            control: autostart,
            status: Arc::new(AtomicBool::new(false)),
            config_device: device,
            config_width: width,
            config_height: height,
            config_framerate: framerate,
        }
    }

    /// Read the running flag and decide this tick's action. The flag is
    /// shared with the worker, so only the returned snapshot relates the
    /// decision to it.
    pub fn tick_decision(&self) -> (r: (TickAction, bool))
        ensures
            r.0 == spec_tick_action(self.control, r.1),
    {
        let running = self.status.load(Ordering::SeqCst);
        (tick_action(self.control, running), running)
    }

    /// Raise the running flag; the driver calls this as it spawns a worker.
    pub fn mark_spawned(&self) {
        self.status.store(true, Ordering::SeqCst);
    }

    /// Clear the running flag; a signal only — the worker exits when it
    /// next observes it.
    pub fn signal_stop(&self) {
        self.status.store(false, Ordering::SeqCst);
    }

    /// The worker's per-iteration check of the running flag.
    pub fn worker_should_run(&self) -> bool {
        self.status.load(Ordering::SeqCst)
    }

    /// Publish one result into the mailbox, blocking while the previous one
    /// is undelivered; the value comes back as the error when the receiver
    /// is gone.
    pub fn publish(&self, data: WebcamFacialData) -> (r: Result<(), WebcamFacialData>)
        ensures
            r matches Err(d) ==> d == data,
    {
        mailbox_send(&self.sender, data)
    }

    /// Drain the mailbox without blocking, in arrival order, until it is
    /// empty; with capacity one this is zero or one record per tick. The
    /// budget only bounds the loop so that it provably terminates even
    /// against a sender that refills the slot between polls.
    pub fn drain(&self) -> (out: Vec<WebcamFacialData>) {
        let mut out: Vec<WebcamFacialData> = Vec::new();
        let mut budget: usize = usize::MAX;
        while budget > 0
            decreases budget,
        {
            budget = budget - 1;
            match mailbox_try_recv(&self.receiver) {
                Some(d) => out.push(d),
                None => { return out; },
            }
        }
        out
    }
}

} // verus!
