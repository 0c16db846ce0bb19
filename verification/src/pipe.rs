use vstd::prelude::*;

verus! {

/// Descriptor bookkeeping for the fork/exec error channel.
///
/// The channel is a unidirectional OS pipe; this type owns its two
/// endpoint descriptors as plain integers, with `-1` as the sentinel for
/// an endpoint already closed. The front end creates the pipe, performs
/// the blocking reads and writes, and issues the actual close calls; this
/// type decides which descriptor, if any, a close call is still owed, so
/// that no descriptor is ever released twice.
#[derive(Debug)]
pub struct Pipe {
    /// Descriptor of the read end, or `-1` once closed.
    read_fd: i32,
    /// Descriptor of the write end, or `-1` once closed.
    write_fd: i32,
}

/// What closing the read end does: the read end becomes the closed
/// sentinel, the write end keeps its value, and the descriptor that must
/// now be released is returned — none when the end was already closed.
pub open spec fn close_read_post(pre: Pipe, post: Pipe, released: Option<i32>) -> bool {
    &&& post.spec_read_fd() == -1
    &&& post.spec_write_fd() == pre.spec_write_fd()
    &&& released == (if pre.spec_read_fd() >= 0 {
        Some(pre.spec_read_fd())
    } else {
        None::<i32>
    })
}

/// What closing the write end does, mirroring [`close_read_post`].
pub open spec fn close_write_post(pre: Pipe, post: Pipe, released: Option<i32>) -> bool {
    &&& post.spec_write_fd() == -1
    &&& post.spec_read_fd() == pre.spec_read_fd()
    &&& released == (if pre.spec_write_fd() >= 0 {
        Some(pre.spec_write_fd())
    } else {
        None::<i32>
    })
}

impl Pipe {
    /// Descriptor of the read end, or `-1` once closed.
    pub closed spec fn spec_read_fd(&self) -> i32 {
        self.read_fd
    }

    /// Descriptor of the write end, or `-1` once closed.
    pub closed spec fn spec_write_fd(&self) -> i32 {
        self.write_fd
    }

    /// Each endpoint is either a descriptor or the closed sentinel.
    #[verifier::type_invariant]
    spec fn wf(&self) -> bool {
        self.read_fd >= -1 && self.write_fd >= -1
    }

    /// Take ownership of the two endpoint descriptors of a freshly created
    /// pipe, read end first, as the OS call that made the pipe returned
    /// them.
    pub fn new(read_fd: i32, write_fd: i32) -> (r: Pipe)
        requires
            read_fd >= 0,
            write_fd >= 0,
        ensures
            r.spec_read_fd() == read_fd,
            r.spec_write_fd() == write_fd,
    {
        Pipe { read_fd, write_fd }
    }

    /// Descriptor of the read end for a blocking read, or nothing once
    /// that end was closed.
    pub fn read_end(&self) -> (r: Option<i32>)
        ensures
            r == (if self.spec_read_fd() >= 0 {
                Some(self.spec_read_fd())
            } else {
                None::<i32>
            }),
    {
        proof {
            use_type_invariant(self);
        }
        if self.read_fd >= 0 {
            Some(self.read_fd)
        } else {
            None
        }
    }

    /// Descriptor of the write end for a blocking write, or nothing once
    /// that end was closed.
    pub fn write_end(&self) -> (r: Option<i32>)
        ensures
            r == (if self.spec_write_fd() >= 0 {
                Some(self.spec_write_fd())
            } else {
                None::<i32>
            }),
    {
        proof {
            use_type_invariant(self);
        }
        if self.write_fd >= 0 {
            Some(self.write_fd)
        } else {
            None
        }
    }

    /// Close the read end: mark it closed and hand back the descriptor the
    /// front end must release, if this end was still open. Safe to call
    /// any number of times; only the first call on an open end yields a
    /// descriptor.
    pub fn close_read(&mut self) -> (released: Option<i32>)
        ensures
            close_read_post(*old(self), *final (self), released),
    {
        proof {
            use_type_invariant(&*self);
        }
        if self.read_fd >= 0 {
            let fd = self.read_fd;
            self.read_fd = -1;
            Some(fd)
        } else {
            self.read_fd = -1;
            None
        }
    }

    /// Close the write end, mirroring [`Pipe::close_read`].
    pub fn close_write(&mut self) -> (released: Option<i32>)
        ensures
            close_write_post(*old(self), *final (self), released),
    {
        proof {
            use_type_invariant(&*self);
        }
        if self.write_fd >= 0 {
            let fd = self.write_fd;
            self.write_fd = -1;
            Some(fd)
        } else {
            self.write_fd = -1;
            None
        }
    }
}

/// Closing the read end is idempotent: after one close, a second close
/// changes nothing and yields no descriptor, so the underlying descriptor
/// can never be released twice.
pub proof fn lemma_close_read_idempotent(
    p0: Pipe,
    p1: Pipe,
    p2: Pipe,
    r1: Option<i32>,
    r2: Option<i32>,
)
    requires
        close_read_post(p0, p1, r1),
        close_read_post(p1, p2, r2),
    ensures
        r2 is None,
        p2 == p1,
{
    assert(p2 == p1);
}

/// Closing the write end is idempotent, mirroring
/// [`lemma_close_read_idempotent`].
pub proof fn lemma_close_write_idempotent(
    p0: Pipe,
    p1: Pipe,
    p2: Pipe,
    r1: Option<i32>,
    r2: Option<i32>,
)
    requires
        close_write_post(p0, p1, r1),
        close_write_post(p1, p2, r2),
    ensures
        r2 is None,
        p2 == p1,
{
    assert(p2 == p1);
}

} // verus!
