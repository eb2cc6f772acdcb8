use vstd::prelude::*;
use crate::particle::Particle;
use crate::error::DrawError;

verus! {

/// Ghost image of a `ParticleStore`: the particles it holds, in insertion
/// order, together with the state of its runtime borrow guard.
pub struct StoreView {
    pub particles: Seq<Particle>,
    pub readers: nat,
    pub writing: bool,
}

/// An aliasing-safe, grow-only collection of particles.
///
/// The store enforces a single-writer / shared-reader discipline with a
/// runtime-checked guard rather than a language feature: an exclusive
/// (write) access is admitted only while no read and no write is live, and
/// a shared (read) access only while no write is live.  A conflicting
/// request fails fast with `BorrowConflict` instead of blocking or
/// corrupting the collection.
pub struct ParticleStore {
    particles: Vec<Particle>,
    readers: usize,
    writing: bool,
}

impl View for ParticleStore {
    type V = StoreView;

    closed spec fn view(&self) -> StoreView {
        StoreView {
            particles: self.particles@,
            readers: self.readers as nat,
            writing: self.writing,
        }
    }
}

impl ParticleStore {
    /// The guard admits a new exclusive (write) access right now.
    pub open spec fn can_write(self) -> bool {
        self@.readers == 0 && !self@.writing
    }

    /// The guard admits a new shared (read) access right now.
    pub open spec fn can_read(self) -> bool {
        !self@.writing
    }

    pub fn new() -> (s: ParticleStore)
        ensures
            s@.particles == Seq::<Particle>::empty(),
            s@.readers == 0,
            !s@.writing,
    {
        ParticleStore { particles: Vec::new(), readers: 0, writing: false }
    }

    pub fn len(&self) -> (n: usize)
        ensures
            n == self@.particles.len(),
    {
        self.particles.len()
    }

    /// Read one particle; shared access is implicit in `&self`.
    pub fn get(&self, i: usize) -> (p: Particle)
        requires
            i < self@.particles.len(),
        ensures
            p == self@.particles[i as int],
    {
        self.particles[i]
    }

    /// Append a particle, acquiring and releasing exclusive access within
    /// the call.  Fails with `BorrowConflict`, leaving the contents
    /// untouched, exactly when some access is already live.
    pub fn add(&mut self, p: Particle) -> (r: Result<(), DrawError>)
        ensures
            final(self)@.readers == old(self)@.readers,
            final(self)@.writing == old(self)@.writing,
            old(self).can_write() ==> r is Ok
                && final(self)@.particles == old(self)@.particles.push(p),
            !old(self).can_write() ==> (r matches Err(e) && e is BorrowConflict)
                && final(self)@.particles == old(self)@.particles,
    {
        if self.readers == 0 && !self.writing {
            self.particles.push(p);
            Ok(())
        } else {
            Err(DrawError::BorrowConflict)
        }
    }

    /// Copy out the contents, in insertion order, under a shared access
    /// taken and released within the call: fails with `BorrowConflict`,
    /// exactly when an exclusive access is live, rather than observing a
    /// collection that is being changed.
    pub fn snapshot(&self) -> (r: Result<Vec<Particle>, DrawError>)
        ensures
            self.can_read() ==> (r matches Ok(v) && v@ == self@.particles),
            !self.can_read() ==> (r matches Err(e) && e is BorrowConflict),
    {
        if self.writing {
            return Err(DrawError::BorrowConflict);
        }
        let n = self.particles.len();
        let mut out: Vec<Particle> = Vec::new();
        let mut i: usize = 0;
        while i < n
            invariant
                i <= n,
                n == self@.particles.len(),
                out@ == self@.particles.take(i as int),
            decreases n - i,
        {
            out.push(self.particles[i]);
            proof {
                assert(self@.particles.take(i + 1 as int) =~= self@.particles.take(i as int).push(
                    self@.particles[i as int],
                ));
            }
            i = i + 1;
        }
        proof {
            assert(self@.particles.take(n as int) =~= self@.particles);
        }
        Ok(out)
    }

    /// Try to take a shared (read) access that outlives the call; succeeds
    /// exactly when no exclusive access is live.
    pub fn try_begin_read(&mut self) -> (r: bool)
        requires
            old(self)@.readers < usize::MAX,
        ensures
            r == old(self).can_read(),
            final(self)@.particles == old(self)@.particles,
            final(self)@.writing == old(self)@.writing,
            r ==> final(self)@.readers == old(self)@.readers + 1,
            !r ==> final(self)@.readers == old(self)@.readers,
    {
        if !self.writing {
            self.readers = self.readers + 1;
            true
        } else {
            false
        }
    }

    /// Release one shared access taken by `try_begin_read`.
    pub fn end_read(&mut self)
        requires
            old(self)@.readers > 0,
        ensures
            final(self)@.particles == old(self)@.particles,
            final(self)@.writing == old(self)@.writing,
            final(self)@.readers == old(self)@.readers - 1,
    {
        self.readers = self.readers - 1;
    }

    /// Try to take an exclusive (write) access that outlives the call;
    /// succeeds exactly when no access of either kind is live.
    pub fn try_begin_write(&mut self) -> (r: bool)
        ensures
            r == old(self).can_write(),
            final(self)@.particles == old(self)@.particles,
            final(self)@.readers == old(self)@.readers,
            r ==> final(self)@.writing,
            !r ==> final(self)@.writing == old(self)@.writing,
    {
        if self.readers == 0 && !self.writing {
            self.writing = true;
            true
        } else {
            false
        }
    }

    /// Release the exclusive access taken by `try_begin_write`.
    pub fn end_write(&mut self)
        requires
            old(self)@.writing,
        ensures
            final(self)@.particles == old(self)@.particles,
            final(self)@.readers == old(self)@.readers,
            !final(self)@.writing,
    {
        self.writing = false;
    }
}

} // verus!
