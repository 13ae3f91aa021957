//! A frame with the tick at which a device saw it, sent it or is to send it.
use vstd::prelude::*;
use super::ethernet_frame::{EthernetFrame, EthernetFrameView};

verus! {

#[derive(Debug)]
pub struct EthernetLog {
    pub t: usize,
    pub frame: EthernetFrame,
}

pub struct EthernetLogView {
    pub t: usize,
    pub frame: EthernetFrameView,
}

impl View for EthernetLog {
    type V = EthernetLogView;

    open spec fn view(&self) -> EthernetLogView {
        EthernetLogView { t: self.t, frame: self.frame@ }
    }
}

impl Clone for EthernetLog {
    fn clone(&self) -> (r: EthernetLog)
        ensures
            r@ == self@,
    {
        EthernetLog { t: self.t, frame: self.frame.clone() }
    }
}

/// The entries of a log, each by its view.
pub open spec fn logs_view(logs: Seq<EthernetLog>) -> Seq<EthernetLogView> {
    logs.map_values(|l: EthernetLog| l@)
}

/// The frames of a queue, each by its view.
pub open spec fn frames_view(frames: Seq<EthernetFrame>) -> Seq<EthernetFrameView> {
    frames.map_values(|f: EthernetFrame| f@)
}

} // verus!
