//! The round-robin balancer: a bounded channel holding `N` writer
//! instances, leased one at a time and re-enqueued even on error, so
//! capacity is never lost and `flush` drains every lessee.
use vstd::prelude::*;
use crate::chunks::ChunkPointer;
use crate::object::ObjectError;
use crate::writer::Writer;

verus! {

#[verifier::external_type_specification]
#[verifier::external_body]
#[verifier::reject_recursive_types(T)]
pub struct ExSender<T>(flume::Sender<T>);

#[verifier::external_type_specification]
#[verifier::external_body]
#[verifier::reject_recursive_types(T)]
pub struct ExReceiver<T>(flume::Receiver<T>);

/// Relies on `flume::bounded`: a channel holding at most `cap` items.
#[verifier::external_body]
fn channel<W>(cap: usize) -> (r: (flume::Sender<W>, flume::Receiver<W>)) {
    flume::bounded(cap)
}

/// Relies on `flume::Sender::send`: blocks until the item is enqueued;
/// fails only when every receiver is gone.
#[verifier::external_body]
fn send_writer<W>(tx: &flume::Sender<W>, w: W) -> (r: Result<(), ObjectError>)
    ensures
        r matches Err(e) ==> e == ObjectError::Fatal,
{
    tx.send(w).map_err(|_| ObjectError::Fatal)
}

/// Relies on `flume::Receiver::recv`: blocks until an item arrives; fails
/// only when every sender is gone.
#[verifier::external_body]
fn recv_writer<W>(rx: &flume::Receiver<W>) -> (r: Result<W, ObjectError>)
    ensures
        r matches Err(e) ==> e == ObjectError::Fatal,
{
    rx.recv().map_err(|_| ObjectError::Fatal)
}

/// Relies on `flume::Sender::clone`: the clone feeds the same channel.
#[verifier::external_body]
fn clone_sender<W>(tx: &flume::Sender<W>) -> (r: flume::Sender<W>) {
    tx.clone()
}

/// Relies on `flume::Receiver::clone`: the clone drains the same channel.
#[verifier::external_body]
fn clone_receiver<W>(rx: &flume::Receiver<W>) -> (r: flume::Receiver<W>) {
    rx.clone()
}

/// Leases one of `writers` writer instances per call, round-robin, through
/// a bounded channel that always holds the idle instances.
#[verifier::reject_recursive_types(W)]
pub struct RoundRobinBalancer<W> {
    enqueue: flume::Sender<W>,
    dequeue: flume::Receiver<W>,
    writers: usize,
}

impl<W: Writer + Clone> RoundRobinBalancer<W> {
    /// The number of writer instances owned by the balancer.
    pub closed spec fn spec_writers(&self) -> usize {
        self.writers
    }

    /// Builds a balancer over `writers` clones of `writer`, all enqueued.
    pub fn new(writer: W, writers: usize) -> (r: Result<RoundRobinBalancer<W>, ObjectError>)
        ensures
            match r {
                Ok(b) => b.spec_writers() == writers,
                Err(e) => e == ObjectError::Fatal,
            },
    {
        let (enqueue, dequeue) = channel(writers);
        let mut i: usize = 0;
        while i < writers
            invariant
                0 <= i <= writers,
            decreases writers - i,
        {
            match send_writer(&enqueue, writer.clone()) {
                Ok(_) => {},
                Err(_) => {
                    return Err(ObjectError::Fatal);
                },
            }
            i = i + 1;
        }
        Ok(RoundRobinBalancer { enqueue, dequeue, writers })
    }
}

impl<W: Writer + Clone> Clone for RoundRobinBalancer<W> {
    /// A clone leases from the same set of writers.
    fn clone(&self) -> (r: Self)
        ensures
            r.spec_writers() == self.spec_writers(),
    {
        RoundRobinBalancer {
            enqueue: clone_sender(&self.enqueue),
            dequeue: clone_receiver(&self.dequeue),
            writers: self.writers,
        }
    }
}

impl<W: Writer + Clone> Writer for RoundRobinBalancer<W> {
    open spec fn inv(&self) -> bool {
        true
    }

    /// Leases one writer, writes the chunk through it, and re-enqueues the
    /// writer even when the write failed.
    fn write_chunk(&mut self, hash: &Vec<u8>, data: &[u8]) -> (r: Result<
        ChunkPointer,
        ObjectError,
    >)
        ensures
            final(self).spec_writers() == old(self).spec_writers(),
    {
        let mut writer = match recv_writer(&self.dequeue) {
            Ok(w) => w,
            Err(e) => {
                return Err(e);
            },
        };
        let result = writer.write_chunk(hash, data);
        match send_writer(&self.enqueue, writer) {
            Ok(_) => {},
            Err(e) => {
                return Err(e);
            },
        }
        result
    }

    /// Leases every writer once and flushes it, so every chunk submitted
    /// before the call is persisted when this returns. The set of writer
    /// instances the balancer owns is conserved.
    fn flush(&mut self) -> (r: Result<(), ObjectError>)
        ensures
            final(self).spec_writers() == old(self).spec_writers(),
    {
        let n: usize = self.writers;
        let mut i: usize = 0;
        while i < n
            invariant
                0 <= i <= n,
            decreases n - i,
        {
            let mut writer = match recv_writer(&self.dequeue) {
                Ok(w) => w,
                Err(e) => {
                    return Err(e);
                },
            };
            let flushed = writer.flush();
            match send_writer(&self.enqueue, writer) {
                Ok(_) => {},
                Err(e) => {
                    return Err(e);
                },
            }
            match flushed {
                Ok(_) => {},
                Err(e) => {
                    return Err(e);
                },
            }
            i = i + 1;
        }
        Ok(())
    }
}

} // verus!
