//! The non-blocking writer: a queue without bound between the threads that
//! log and the one thread that writes.
//!
//! A thread that logs gathers bytes in a handle of its own and, on flush,
//! puts them on the queue as one message. It never waits for the file. The
//! sending end of the queue lies in a slot that every handle shares; the
//! guard empties the slot, which closes the queue once the messages in
//! flight are through.

use vstd::prelude::*;
use std::sync::{Arc, Mutex, MutexGuard};
use crossbeam::channel::{Receiver, Sender};

verus! {

/// The sending end of a crossbeam channel.
#[verifier::external_type_specification]
#[verifier::external_body]
#[verifier::reject_recursive_types(T)]
pub struct ExSender<T>(Sender<T>);

/// The receiving end of a crossbeam channel.
#[verifier::external_type_specification]
#[verifier::external_body]
#[verifier::reject_recursive_types(T)]
pub struct ExReceiver<T>(Receiver<T>);

/// The standard library's lock.
#[verifier::external_type_specification]
#[verifier::external_body]
#[verifier::reject_recursive_types(T)]
pub struct ExMutex<T: ?Sized>(Mutex<T>);

/// The standard library's lock, held.
#[verifier::external_type_specification]
#[verifier::external_body]
#[verifier::reject_recursive_types(T)]
pub struct ExMutexGuard<'a, T: ?Sized + 'a>(MutexGuard<'a, T>);

/// `crossbeam::channel::unbounded`: the two ends of a new queue without
/// bound.
pub assume_specification<T>[ crossbeam::channel::unbounded::<T> ]() -> (r: (
    Sender<T>,
    Receiver<T>,
));

/// `Mutex::new`: a lock around `t`.
pub assume_specification<T>[ Mutex::<T>::new ](t: T) -> (r: Mutex<T>);

/// `Mutex::lock`: waits for the lock. There is none to hold where a thread
/// panicked while it held the lock. No thread of this module asks for the
/// lock while it holds it.
#[verifier::external_body]
fn lock<'a>(slot: &'a Mutex<Option<Sender<Vec<u8>>>>) -> (r: Option<
    MutexGuard<'a, Option<Sender<Vec<u8>>>>,
>) {
    slot.lock().ok()
}

/// `MutexGuard::deref`: what the lock guards, for as long as it is held.
#[verifier::external_body]
fn slot<'a, 'b>(guard: &'a MutexGuard<'b, Option<Sender<Vec<u8>>>>) -> (r: &'a Option<
    Sender<Vec<u8>>,
>) {
    std::ops::Deref::deref(guard)
}

/// `MutexGuard::deref_mut`: what the lock guards, to be changed while the
/// lock is held.
#[verifier::external_body]
fn slot_mut<'a, 'b>(guard: &'a mut MutexGuard<'b, Option<Sender<Vec<u8>>>>) -> (r: &'a mut Option<
    Sender<Vec<u8>>,
>) {
    std::ops::DerefMut::deref_mut(guard)
}

/// `Sender::send`: puts `msg` on the queue. On a queue without bound this
/// does not wait. It fails where the receiving end is gone, and then hands
/// the message back.
#[verifier::external_body]
fn send(sender: &Sender<Vec<u8>>, msg: Vec<u8>) -> (r: Result<(), Vec<u8>>)
    ensures
        r matches Err(back) ==> back@ == msg@,
{
    sender.send(msg).map_err(crossbeam::channel::SendError::into_inner)
}

/// `Receiver::recv`: waits for the next message. There is none once the
/// queue is empty and every sending end is gone.
#[verifier::external_body]
fn receive(receiver: &Receiver<Vec<u8>>) -> (r: Option<Vec<u8>>) {
    receiver.recv().ok()
}

/// Whether a flush has something to hand over: the queue is open and
/// `buffer` is not empty.
pub open spec fn pending(buffer: Seq<u8>, open: bool) -> bool {
    open && buffer.len() > 0
}

/// Takes out of `buffer` what a flush hands to the queue: all of it as one
/// message, where the queue is open and there is anything. Else the buffer
/// stays as it is.
pub fn take_pending(buffer: &mut Vec<u8>, open: bool) -> (r: Option<Vec<u8>>)
    ensures
        match r {
            Some(message) => pending(old(buffer)@, open) && message@ == old(buffer)@
                && final(buffer)@ == Seq::<u8>::empty(),
            None => !pending(old(buffer)@, open) && final(buffer)@ == old(buffer)@,
        },
{
    if open && buffer.len() > 0 {
        let mut message: Vec<u8> = Vec::new();
        std::mem::swap(buffer, &mut message);
        Some(message)
    } else {
        None
    }
}

/// The receiving end of the queue, for the one thread that writes.
pub struct MessageQueue {
    receiver: Receiver<Vec<u8>>,
}

impl MessageQueue {
    /// Waits for the next message. Returns `None` once the queue is closed
    /// and every message that was sent has been handed out.
    pub fn receive(&self) -> (r: Option<Vec<u8>>) {
        receive(&self.receiver)
    }
}

/// Makes the handles through which threads write. Cheap to clone: every
/// clone shares the one queue.
pub struct NonBlockingWriter {
    sender: Arc<Mutex<Option<Sender<Vec<u8>>>>>,
}

/// One thread's end of the writer: a buffer, and a share in the queue.
///
/// What is written stays in the buffer until a flush. A handle does not
/// flush by itself when it is let go: whoever holds one flushes it first.
pub struct NonBlockingWriterHandle {
    sender: Arc<Mutex<Option<Sender<Vec<u8>>>>>,
    buffer: Vec<u8>,
}

/// Closes the queue. The one guard of a writer holds the worker that was
/// started for it, until shutdown hands it out.
pub struct NonBlockingGuard<H> {
    sender: Arc<Mutex<Option<Sender<Vec<u8>>>>>,
    handle: Option<H>,
}

impl NonBlockingWriter {
    /// The slot that holds the sending end of this writer's queue.
    pub closed spec fn shared(&self) -> Arc<Mutex<Option<Sender<Vec<u8>>>>> {
        self.sender
    }

    /// Opens a queue and starts its worker. `start` is given the receiving
    /// end and returns a handle on what it started, commonly a thread that
    /// writes every message it receives to a file. The guard keeps that
    /// handle.
    pub fn new<H, F: FnOnce(MessageQueue) -> H>(start: F) -> (r: (
        NonBlockingWriter,
        NonBlockingGuard<H>,
    ))
        requires
            forall|queue: MessageQueue| start.requires((queue,)),
        ensures
            exists|queue: MessageQueue, worker: H|
                start.ensures((queue,), worker) && r.1.worker() == Some(worker),
            r.1.shared() == r.0.shared(),
    {
        let (sender, receiver) = crossbeam::channel::unbounded::<Vec<u8>>();
        let shared = Arc::new(Mutex::new(Some(sender)));
        let queue = MessageQueue { receiver };
        let ghost given = queue;
        let handle = start(queue);
        assert(start.ensures((given,), handle));
        let guard = NonBlockingGuard { sender: shared.clone(), handle: Some(handle) };
        (NonBlockingWriter { sender: shared }, guard)
    }

    /// A new handle with an empty buffer, which shares this writer's queue.
    pub fn make_writer(&self) -> (r: NonBlockingWriterHandle)
        ensures
            r@ == Seq::<u8>::empty(),
            r.shared() == self.shared(),
    {
        NonBlockingWriterHandle { sender: self.sender.clone(), buffer: Vec::with_capacity(256) }
    }
}

impl Clone for NonBlockingWriter {
    /// Another maker of handles for the same queue.
    fn clone(&self) -> (r: Self)
        ensures
            r.shared() == self.shared(),
    {
        NonBlockingWriter { sender: self.sender.clone() }
    }
}

impl View for NonBlockingWriterHandle {
    type V = Seq<u8>;

    /// The bytes written and not yet flushed.
    closed spec fn view(&self) -> Seq<u8> {
        self.buffer@
    }
}

impl NonBlockingWriterHandle {
    /// The slot that holds the sending end of this handle's queue.
    pub closed spec fn shared(&self) -> Arc<Mutex<Option<Sender<Vec<u8>>>>> {
        self.sender
    }

    /// Appends `buf` to the buffer and returns its length. Nothing reaches
    /// the queue before a flush.
    pub fn write(&mut self, buf: &[u8]) -> (r: usize)
        ensures
            final(self)@ == old(self)@ + buf@,
            r == buf@.len(),
            final(self).shared() == old(self).shared(),
    {
        self.buffer.extend_from_slice(buf);
        buf.len()
    }

    /// Puts the buffered bytes on the queue as one message and leaves the
    /// buffer empty. Does nothing where the buffer is empty, and nothing
    /// where the queue is closed: the bytes then stay in the buffer.
    ///
    /// Returns whether the bytes were taken out of the buffer and given to
    /// the queue. Whether the queue is open is seen under the lock, so no
    /// message follows one that found it closed. A message that the queue
    /// refuses, because its receiving end is gone, is dropped and not
    /// reported.
    pub fn flush(&mut self) -> (sent: bool)
        ensures
            sent ==> old(self)@.len() > 0 && final(self)@ == Seq::<u8>::empty(),
            !sent ==> final(self)@ == old(self)@,
            final(self).shared() == old(self).shared(),
    {
        if self.buffer.len() > 0 {
            if let Some(guard) = lock(&self.sender) {
                let sender = slot(&guard).as_ref();
                if let Some(message) = take_pending(&mut self.buffer, sender.is_some()) {
                    let _ = send(sender.unwrap(), message);
                    return true;
                }
            }
        }
        false
    }
}

impl<H> NonBlockingGuard<H> {
    /// The slot that holds the sending end of the queue that this guard
    /// closes.
    pub closed spec fn shared(&self) -> Arc<Mutex<Option<Sender<Vec<u8>>>>> {
        self.sender
    }

    /// The worker that shutdown has yet to hand out.
    pub closed spec fn worker(&self) -> Option<H> {
        self.handle
    }

    /// Closes the queue and hands out the worker, for the caller to wait
    /// for: it ends once it has received what was sent before. A second
    /// call finds the queue closed and the worker gone, and changes nothing.
    pub fn shutdown(&mut self) -> (r: Option<H>)
        ensures
            r == old(self).worker(),
            final(self).worker() is None,
            final(self).shared() == old(self).shared(),
            old(self).worker() is None ==> *final(self) == *old(self),
    {
        if let Some(guard) = lock(&self.sender) {
            let mut guard = guard;
            *slot_mut(&mut guard) = None;
        }
        self.handle.take()
    }
}

} // verus!
