//! A reference-counted handle that forwards the I/O traits of `&T`.
//!
//! Many I/O resources (sockets, files, pipes) can be read and written through
//! a shared reference: `&TcpStream` implements `Read` and `Write`. `IoArc<T>`
//! wraps such a value in an `Arc` so that any number of owners can hold it,
//! and implements `Read`, `Write`, `AsyncRead` and `AsyncWrite` for itself
//! whenever `&T` does, by calling the operation on `&T`.
//!
//! Verus models the handle by the value it shares (`h@`). The constructors
//! set it, cloning keeps it, borrowing hands it out, and no I/O call through
//! the handle replaces it. What an I/O call returns is whatever `&T` returned:
//! the handle adds no retry, no buffering and no error of its own.
use futures_io::{AsyncRead, AsyncWrite};
use std::borrow::Borrow;
use std::io::{Read, Write};
use std::ops::Deref;
use std::pin::Pin;
use std::sync::Arc;
use std::task::{Context, Poll};
use vstd::prelude::*;

verus! {

// The std types below are declared, opaque, so that the I/O traits'
// signatures can stand in verified code; nothing is assumed of their contents.
#[verifier::external_type_specification]
#[verifier::external_body]
pub struct ExIoError(std::io::Error);

#[verifier::external_type_specification]
#[verifier::external_body]
#[verifier::reject_recursive_types(P)]
pub struct ExPin<P>(Pin<P>);

#[verifier::external_type_specification]
#[verifier::external_body]
pub struct ExContext<'a>(Context<'a>);

#[verifier::external_type_specification]
#[verifier::external_body]
#[verifier::reject_recursive_types(T)]
pub struct ExPoll<T>(Poll<T>);

/// Relies on `<Pin<Ptr> as Deref>::deref`, which hands out a shared reference
/// to the pinned value; nothing is assumed of which value that is.
pub assume_specification<Ptr: Deref>[ <Pin<Ptr> as Deref>::deref ](p: &Pin<Ptr>) -> &<Ptr as Deref>::Target;

/// A variant of `Arc` that delegates the I/O traits when they are available on `&T`.
#[derive(Debug)]
pub struct IoArc<T>(Arc<T>);

impl<T> View for IoArc<T> {
    type V = T;

    /// The value that every clone of this handle shares.
    closed spec fn view(&self) -> T {
        *self.0
    }
}

impl<T> IoArc<T> {
    /// Wraps `data` in a new reference-counted cell.
    pub fn new(data: T) -> (r: Self)
        ensures
            r@ == data,
    {
        IoArc(Arc::new(data))
    }

    /// A shared reference to the value, valid as long as this handle is.
    fn shared_ref(&self) -> (r: &T)
        ensures
            *r == self@,
    {
        &*self.0
    }
}

impl<T> Clone for IoArc<T> {
    /// A second owner of the same cell: the count goes up, the value is not copied.
    fn clone(&self) -> (r: Self)
        ensures
            r@ == self@,
    {
        IoArc(Arc::clone(&self.0))
    }
}

impl<T: Default> Default for IoArc<T> {
    fn default() -> (r: Self)
        ensures
            T::default.ensures((), r@),
    {
        Self::new(T::default())
    }
}

impl<T> From<T> for IoArc<T> {
    fn from(t: T) -> (r: Self)
        ensures
            r@ == t,
    {
        Self::new(t)
    }
}

impl<T> vstd::std_specs::convert::FromSpecImpl<T> for IoArc<T> {
    open spec fn obeys_from_spec() -> bool {
        true
    }

    closed spec fn from_spec(t: T) -> Self {
        IoArc(Arc::new(t))
    }
}

impl<T> Borrow<T> for IoArc<T> {
    fn borrow(&self) -> &T {
        self.shared_ref()
    }
}

impl<T> AsRef<T> for IoArc<T> {
    fn as_ref(&self) -> (r: &T)
        ensures
            *r == self@,
    {
        self.shared_ref()
    }
}

impl<T> Unpin for IoArc<T> {}

/// Relies on `Read::read` of `&T`; a slice keeps its length.
#[verifier::external_body]
fn read_through<T>(src: &T, buf: &mut [u8]) -> (r: std::io::Result<usize>)
    where for<'a> &'a T: Read,
    ensures
        final(buf)@.len() == old(buf)@.len(),
{
    let mut r: &T = src;
    r.read(buf)
}

/// Relies on `Write::write` of `&T`.
#[verifier::external_body]
fn write_through<T>(src: &T, buf: &[u8]) -> (r: std::io::Result<usize>)
    where for<'a> &'a T: Write,
{
    let mut r: &T = src;
    r.write(buf)
}

/// Relies on `Write::flush` of `&T`.
#[verifier::external_body]
fn flush_through<T>(src: &T) -> (r: std::io::Result<()>)
    where for<'a> &'a T: Write,
{
    let mut r: &T = src;
    r.flush()
}

/// Relies on `AsyncRead::poll_read` of `&T`; a slice keeps its length.
#[verifier::external_body]
fn poll_read_through<T>(src: &T, cx: &mut Context<'_>, buf: &mut [u8]) -> (r: Poll<std::io::Result<usize>>)
    where for<'a> &'a T: AsyncRead,
    ensures
        final(buf)@.len() == old(buf)@.len(),
{
    let mut r: &T = src;
    Pin::new(&mut r).poll_read(cx, buf)
}

/// Relies on `AsyncWrite::poll_write` of `&T`.
#[verifier::external_body]
fn poll_write_through<T>(src: &T, cx: &mut Context<'_>, buf: &[u8]) -> (r: Poll<std::io::Result<usize>>)
    where for<'a> &'a T: AsyncWrite,
{
    let mut r: &T = src;
    Pin::new(&mut r).poll_write(cx, buf)
}

/// Relies on `AsyncWrite::poll_flush` of `&T`.
#[verifier::external_body]
fn poll_flush_through<T>(src: &T, cx: &mut Context<'_>) -> (r: Poll<std::io::Result<()>>)
    where for<'a> &'a T: AsyncWrite,
{
    let mut r: &T = src;
    Pin::new(&mut r).poll_flush(cx)
}

/// Relies on `AsyncWrite::poll_close` of `&T`.
#[verifier::external_body]
fn poll_close_through<T>(src: &T, cx: &mut Context<'_>) -> (r: Poll<std::io::Result<()>>)
    where for<'a> &'a T: AsyncWrite,
{
    let mut r: &T = src;
    Pin::new(&mut r).poll_close(cx)
}

impl<T> Read for IoArc<T>
where
    for<'a> &'a T: Read,
{
    fn read(&mut self, buf: &mut [u8]) -> (r: std::io::Result<usize>)
        ensures
            final(self)@ == old(self)@,
            final(buf)@.len() == old(buf)@.len(),
    {
        read_through(self.shared_ref(), buf)
    }
}

impl<T> Write for IoArc<T>
where
    for<'a> &'a T: Write,
{
    fn write(&mut self, buf: &[u8]) -> (r: std::io::Result<usize>)
        ensures
            final(self)@ == old(self)@,
    {
        write_through(self.shared_ref(), buf)
    }

    fn flush(&mut self) -> (r: std::io::Result<()>)
        ensures
            final(self)@ == old(self)@,
    {
        flush_through(self.shared_ref())
    }
}

impl<T> AsyncRead for IoArc<T>
where
    for<'a> &'a T: AsyncRead,
{
    fn poll_read(self: Pin<&mut Self>, cx: &mut Context<'_>, buf: &mut [u8]) -> (r: Poll<std::io::Result<usize>>)
        ensures
            final(buf)@.len() == old(buf)@.len(),
    {
        let h: &IoArc<T> = &*self;
        poll_read_through(h.shared_ref(), cx, buf)
    }
}

impl<T> AsyncWrite for IoArc<T>
where
    for<'a> &'a T: AsyncWrite,
{
    fn poll_write(self: Pin<&mut Self>, cx: &mut Context<'_>, buf: &[u8]) -> (r: Poll<std::io::Result<usize>>) {
        let h: &IoArc<T> = &*self;
        poll_write_through(h.shared_ref(), cx, buf)
    }

    fn poll_flush(self: Pin<&mut Self>, cx: &mut Context<'_>) -> (r: Poll<std::io::Result<()>>) {
        let h: &IoArc<T> = &*self;
        poll_flush_through(h.shared_ref(), cx)
    }

    fn poll_close(self: Pin<&mut Self>, cx: &mut Context<'_>) -> (r: Poll<std::io::Result<()>>) {
        let h: &IoArc<T> = &*self;
        poll_close_through(h.shared_ref(), cx)
    }
}

} // verus!
