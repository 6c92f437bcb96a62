use crate::error::TransportError;
use serde_gelf::GelfRecord;
use vstd::prelude::*;

verus! {

/// Number of failed deliveries that are gathered before they are reported.
pub const ERROR_REPORT_SIZE: usize = 5;

/// A message for the consumer of the event channel.
#[derive(Debug)]
pub enum Event {
    /// Deliver the buffered batch now.
    Send,
    /// Append a record to the batch.
    Data(GelfRecord),
}

/// The periodic source of `Event::Send`; it is started outside the library.
pub struct Metronome;

/// The abstract state of a [`Buffer`].
pub struct BufferView {
    /// The records not yet delivered, in arrival order.
    pub items: Seq<GelfRecord>,
    /// The delivery failures not yet reported, oldest first.
    pub errors: Seq<TransportError>,
    /// The batch size at which a delivery starts by itself.
    pub threshold: Option<usize>,
}

/// Whether a batch of `len` records has reached the size threshold.
pub open spec fn threshold_reached(threshold: Option<usize>, len: nat) -> bool {
    match threshold {
        Some(t) => len >= t,
        None => false,
    }
}

/// The state after an event, and whether the batch is then to be delivered.
pub open spec fn handle_spec(s: BufferView, e: Event) -> (BufferView, bool) {
    match e {
        Event::Send => (s, s.items.len() > 0),
        Event::Data(r) => {
            let items = s.items.push(r);
            (BufferView { items, ..s }, threshold_reached(s.threshold, items.len()))
        },
    }
}

/// The state after a delivery attempt with the given outcome, and the
/// failures that are to be reported now, if any.
pub open spec fn complete_spec(s: BufferView, outcome: Result<(), TransportError>) -> (
    BufferView,
    Option<Seq<TransportError>>,
) {
    match outcome {
        Ok(_) => (BufferView { items: Seq::empty(), ..s }, None),
        Err(e) => {
            let errors = s.errors.push(e);
            if errors.len() >= ERROR_REPORT_SIZE {
                (BufferView { errors: Seq::empty(), ..s }, Some(errors))
            } else {
                (BufferView { errors, ..s }, None)
            }
        },
    }
}

/// The consumer's state: the batch of undelivered records and the log of
/// delivery failures not yet reported.
///
/// The consumer loop feeds each event to [`Buffer::handle`]; when that
/// returns `true` it delivers [`Buffer::batch`] and reports the outcome to
/// [`Buffer::complete`].
pub struct Buffer {
    items: Vec<GelfRecord>,
    errors: Vec<TransportError>,
    buffer_size: Option<usize>,
}

impl View for Buffer {
    type V = BufferView;

    closed spec fn view(&self) -> BufferView {
        BufferView { items: self.items@, errors: self.errors@, threshold: self.buffer_size }
    }
}

impl Buffer {
    /// The failure log never holds a full report's worth of errors.
    pub closed spec fn wf(&self) -> bool {
        self.errors@.len() < ERROR_REPORT_SIZE
    }

    /// An empty buffer that delivers by itself once `buffer_size` records
    /// are gathered, if a size is given.
    pub fn new(buffer_size: Option<usize>) -> (r: Buffer)
        ensures
            r.wf(),
            r@.items == Seq::<GelfRecord>::empty(),
            r@.errors == Seq::<TransportError>::empty(),
            r@.threshold == buffer_size,
    {
        Buffer { items: Vec::new(), errors: Vec::new(), buffer_size }
    }

    /// The records awaiting delivery, in arrival order.
    pub fn batch(&self) -> (r: &Vec<GelfRecord>)
        ensures
            r@ == self@.items,
    {
        &self.items
    }

    /// The delivery failures not yet reported, oldest first.
    pub fn errors(&self) -> (r: &Vec<TransportError>)
        ensures
            r@ == self@.errors,
    {
        &self.errors
    }

    /// The configured size threshold.
    pub fn buffer_size(&self) -> (r: Option<usize>)
        ensures
            r == self@.threshold,
    {
        self.buffer_size
    }

    /// Takes one event from the channel. Returns whether the batch is to be
    /// delivered now: on `Send` when the batch is not empty, and on `Data`
    /// when the batch has reached the size threshold.
    pub fn handle(&mut self, event: Event) -> (r: bool)
        ensures
            (final(self)@, r) == handle_spec(old(self)@, event),
            final(self).wf() == old(self).wf(),
    {
        match event {
            Event::Send => self.items.len() > 0,
            Event::Data(record) => {
                self.items.push(record);
                match self.buffer_size {
                    Some(max) => self.items.len() >= max,
                    None => false,
                }
            },
        }
    }

    /// Records the outcome of delivering the batch. Success empties the
    /// batch; a failure keeps it and is logged, and once the log holds
    /// `ERROR_REPORT_SIZE` failures they are returned for reporting and
    /// the log starts afresh.
    pub fn complete(&mut self, outcome: Result<(), TransportError>) -> (r: Option<
        Vec<TransportError>,
    >)
        requires
            old(self).wf(),
        ensures
            final(self).wf(),
            final(self)@ == complete_spec(old(self)@, outcome).0,
            match (r, complete_spec(old(self)@, outcome).1) {
                (Some(v), Some(s)) => v@ == s,
                (None, None) => true,
                _ => false,
            },
    {
        match outcome {
            Ok(_) => {
                self.items.clear();
                None
            },
            Err(e) => {
                self.errors.push(e);
                if self.errors.len() >= ERROR_REPORT_SIZE {
                    let mut report: Vec<TransportError> = Vec::new();
                    std::mem::swap(&mut self.errors, &mut report);
                    Some(report)
                } else {
                    None
                }
            },
        }
    }
}

} // verus!
