use vstd::prelude::*;
use crate::interest::{RawFd, WaitArg};

verus! {

/// One fd that an operation waits on, and whether it has reported.
#[derive(Debug, Clone, Copy, PartialEq, Eq, Structural)]
pub struct Track {
    pub arg: WaitArg,
    pub ready: bool,
}

impl Track {
    /// A track that has not reported yet.
    pub fn from_arg(arg: WaitArg) -> (r: Self)
        ensures
            r == (Track { arg, ready: false }),
    {
        Track { arg, ready: false }
    }
}

/// The tracks for `args`, none ready.
pub open spec fn fresh_tracks(args: Seq<WaitArg>) -> Seq<Track> {
    args.map_values(|a: WaitArg| Track { arg: a, ready: false })
}

/// The tracks with readiness cleared.
pub open spec fn reset_tracks(t: Seq<Track>) -> Seq<Track> {
    t.map_values(|x: Track| Track { arg: x.arg, ready: false })
}

/// The tracks after `fd` reported: each track on `fd` is ready.
pub open spec fn marked(t: Seq<Track>, fd: RawFd) -> Seq<Track> {
    t.map_values(|x: Track| if x.arg.fd == fd { Track { arg: x.arg, ready: true } } else { x })
}

/// Whether some track is on `fd`.
pub open spec fn tracks_fd(t: Seq<Track>, fd: RawFd) -> bool {
    exists|i: int| 0 <= i < t.len() && #[trigger] t[i].arg.fd == fd
}

/// Whether every track is ready.
pub open spec fn all_ready(t: Seq<Track>) -> bool {
    forall|i: int| 0 <= i < t.len() ==> #[trigger] t[i].ready
}

/// Polling state of one operation: the fds it waits on.
pub struct Extra {
    track: Vec<Track>,
}

impl View for Extra {
    type V = Seq<Track>;

    closed spec fn view(&self) -> Seq<Track> {
        self.track@
    }
}

impl Extra {
    /// No fd tracked.
    pub fn new() -> (r: Self)
        ensures
            r@ == Seq::<Track>::empty(),
    {
        Extra { track: Vec::new() }
    }

    /// The tracked fds, with their readiness.
    pub fn tracks(&self) -> (r: &Vec<Track>)
        ensures
            r@ == self@,
    {
        &self.track
    }

    /// Clear the readiness of every track.
    pub fn reset(&mut self)
        ensures
            final(self)@ == reset_tracks(old(self)@),
    {
        let mut i: usize = 0;
        let ghost before = self.track@;
        while i < self.track.len()
            invariant
                self.track@.len() == before.len(),
                i <= before.len(),
                forall|j: int| 0 <= j < i ==> #[trigger] self.track@[j] == (Track { arg: before[j].arg, ready: false }),
                forall|j: int| i <= j < before.len() ==> #[trigger] self.track@[j] == before[j],
            decreases before.len() - i,
        {
            let arg = self.track[i].arg;
            self.track.set(i, Track { arg, ready: false });
            i = i + 1;
        }
        assert(self.track@ =~= reset_tracks(before));
    }

    /// Track `args`, none ready.
    pub fn set_args(&mut self, args: &Vec<WaitArg>)
        ensures
            final(self)@ == fresh_tracks(args@),
    {
        let mut track: Vec<Track> = Vec::new();
        let mut i: usize = 0;
        while i < args.len()
            invariant
                i <= args@.len(),
                track@ == fresh_tracks(args@.take(i as int)),
            decreases args@.len() - i,
        {
            track.push(Track::from_arg(args[i]));
            i = i + 1;
            assert(track@ =~= fresh_tracks(args@.take(i as int)));
        }
        assert(args@.take(args@.len() as int) =~= args@);
        self.track = track;
    }

    /// Record that `fd` reported; the operation is ready when some track
    /// is on `fd` and every track has reported.
    pub fn handle_event(&mut self, fd: RawFd) -> (r: bool)
        ensures
            final(self)@ == marked(old(self)@, fd),
            r == (tracks_fd(old(self)@, fd) && all_ready(marked(old(self)@, fd))),
    {
        let ghost before = self.track@;
        let mut found = false;
        let mut i: usize = 0;
        while i < self.track.len()
            invariant
                self.track@.len() == before.len(),
                i <= before.len(),
                forall|j: int| 0 <= j < i ==> #[trigger] self.track@[j] == marked(before, fd)[j],
                forall|j: int| i <= j < before.len() ==> #[trigger] self.track@[j] == before[j],
                found == exists|j: int| 0 <= j < i && #[trigger] before[j].arg.fd == fd,
            decreases before.len() - i,
        {
            let t = self.track[i];
            if t.arg.fd == fd {
                self.track.set(i, Track { arg: t.arg, ready: true });
                found = true;
            }
            i = i + 1;
        }
        assert(self.track@ =~= marked(before, fd));
        if !found {
            return false;
        }
        let mut all = true;
        let mut k: usize = 0;
        while k < self.track.len()
            invariant
                self.track@ == marked(before, fd),
                k <= self.track@.len(),
                all == forall|j: int| 0 <= j < k ==> #[trigger] self.track@[j].ready,
            decreases self.track@.len() - k,
        {
            if !self.track[k].ready {
                all = false;
            }
            k = k + 1;
        }
        all
    }
}

/// An operation that waits on one fd only is ready as soon as that fd
/// reports, and reports of other fds never make it ready.
pub proof fn law_single_fd_ready(arg: WaitArg, fd: RawFd)
    ensures
        tracks_fd(fresh_tracks(seq![arg]), arg.fd) && all_ready(marked(fresh_tracks(seq![arg]), arg.fd)),
        fd != arg.fd ==> !tracks_fd(fresh_tracks(seq![arg]), fd),
{
    let t = fresh_tracks(seq![arg]);
    assert(t[0].arg.fd == arg.fd);
}

/// An operation on two fds is not ready after a report of one of them
/// alone, and is ready once the other reports too.
pub proof fn law_two_fds_ready_when_both(a: WaitArg, b: WaitArg)
    requires
        a.fd != b.fd,
    ensures
        !all_ready(marked(fresh_tracks(seq![a, b]), a.fd)),
        all_ready(marked(marked(fresh_tracks(seq![a, b]), a.fd), b.fd)),
{
    let t1 = marked(fresh_tracks(seq![a, b]), a.fd);
    assert(!t1[1].ready);
    let t2 = marked(t1, b.fd);
    assert(t2[0].ready && t2[1].ready);
}

/// Clearing readiness keeps the tracked fds and leaves none ready.
pub proof fn law_reset(t: Seq<Track>)
    ensures
        reset_tracks(t).len() == t.len(),
        forall|i: int| 0 <= i < t.len() ==> (#[trigger] reset_tracks(t)[i]).arg == t[i].arg && !reset_tracks(t)[i].ready,
{
}

} // verus!
