use vstd::prelude::*;
use crate::buf_result::BufResult;
use crate::io_result::IoError;

verus! {

/// Spawn a blocking function in the thread pool.
pub struct Asyncify<F, D> {
    pub f: Option<F>,
    pub data: Option<D>,
}

impl<F, D> Asyncify<F, D> {
    /// Create [`Asyncify`].
    pub fn new(f: F) -> (r: Self)
        ensures
            r.f == Some(f),
            r.data is None,
    {
        Asyncify { f: Some(f), data: None }
    }

    /// The data the function produced.
    pub fn into_inner(self) -> (r: D)
        requires
            self.data is Some,
        ensures
            r == self.data.unwrap(),
    {
        self.data.unwrap()
    }
}

impl<F: FnOnce() -> BufResult<usize, D>, D> Asyncify<F, D> {
    /// Run the function once, keep its data and give its result.
    pub fn call_blocking(&mut self) -> (r: Result<usize, IoError>)
        requires
            old(self).f is Some,
            call_requires(old(self).f.unwrap(), ()),
        ensures
            final(self).f is None,
            final(self).data is Some,
            call_ensures(old(self).f.unwrap(), (), BufResult(r, final(self).data.unwrap())),
    {
        let f = self.f.take().unwrap();
        let BufResult(res, data) = f();
        self.data = Some(data);
        res
    }
}

/// Spawn a blocking function with a file descriptor in the thread pool.
pub struct AsyncifyFd<S, F, D> {
    pub fd: S,
    pub f: Option<F>,
    pub data: Option<D>,
}

impl<S, F, D> AsyncifyFd<S, F, D> {
    /// Create [`AsyncifyFd`].
    pub fn new(fd: S, f: F) -> (r: Self)
        ensures
            r.fd == fd,
            r.f == Some(f),
            r.data is None,
    {
        AsyncifyFd { fd, f: Some(f), data: None }
    }

    /// The data the function produced.
    pub fn into_inner(self) -> (r: D)
        requires
            self.data is Some,
        ensures
            r == self.data.unwrap(),
    {
        self.data.unwrap()
    }
}

impl<S, F: FnOnce(&S) -> BufResult<usize, D>, D> AsyncifyFd<S, F, D> {
    /// Run the function once on the fd, keep its data and give its result.
    pub fn call_blocking(&mut self) -> (r: Result<usize, IoError>)
        requires
            old(self).f is Some,
            call_requires(old(self).f.unwrap(), (&old(self).fd,)),
        ensures
            final(self).f is None,
            final(self).data is Some,
            final(self).fd == old(self).fd,
            call_ensures(
                old(self).f.unwrap(),
                (&old(self).fd,),
                BufResult(r, final(self).data.unwrap()),
            ),
    {
        let f = self.f.take().unwrap();
        let BufResult(res, data) = f(&self.fd);
        self.data = Some(data);
        res
    }
}

/// Spawn a blocking function with two file descriptors in the thread pool.
pub struct AsyncifyFd2<S1, S2, F, D> {
    pub fd1: S1,
    pub fd2: S2,
    pub f: Option<F>,
    pub data: Option<D>,
}

impl<S1, S2, F, D> AsyncifyFd2<S1, S2, F, D> {
    /// Create [`AsyncifyFd2`].
    pub fn new(fd1: S1, fd2: S2, f: F) -> (r: Self)
        ensures
            r.fd1 == fd1,
            r.fd2 == fd2,
            r.f == Some(f),
            r.data is None,
    {
        AsyncifyFd2 { fd1, fd2, f: Some(f), data: None }
    }

    /// The data the function produced.
    pub fn into_inner(self) -> (r: D)
        requires
            self.data is Some,
        ensures
            r == self.data.unwrap(),
    {
        self.data.unwrap()
    }
}

impl<S1, S2, F: FnOnce(&S1, &S2) -> BufResult<usize, D>, D> AsyncifyFd2<S1, S2, F, D> {
    /// Run the function once on the two fds, keep its data and give its
    /// result.
    pub fn call_blocking(&mut self) -> (r: Result<usize, IoError>)
        requires
            old(self).f is Some,
            call_requires(old(self).f.unwrap(), (&old(self).fd1, &old(self).fd2)),
        ensures
            final(self).f is None,
            final(self).data is Some,
            call_ensures(
                old(self).f.unwrap(),
                (&old(self).fd1, &old(self).fd2),
                BufResult(r, final(self).data.unwrap()),
            ),
    {
        let f = self.f.take().unwrap();
        let BufResult(res, data) = f(&self.fd1, &self.fd2);
        self.data = Some(data);
        res
    }
}

} // verus!
