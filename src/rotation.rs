use vstd::prelude::*;
use vstd::string::*;
use crate::clock::{
    ArchiveDurantion, LATEST_SECS, in_range, interval_secs, lemma_next_boundary, next_boundary,
    next_boundary_spec,
};
use crate::config::{LogFile, effective_interval};
use crate::stamp::{hour_stamp, hour_stamp_of};

verus! {

/// The extension every active log file ends in, replaced on archiving.
pub open spec fn log_suffix() -> Seq<char> {
    seq!['.', 'l', 'o', 'g']
}

/// A path that can be archived: it has a four-character extension to strip.
pub open spec fn archivable(path: Seq<char>) -> bool {
    path.len() >= 4
}

/// The archived name of `path`: its last four characters replaced by the
/// hour stamp and `.log`.
pub open spec fn archived_name(path: Seq<char>, stamp: Seq<char>) -> Seq<char> {
    path.subrange(0, path.len() - 4) + stamp + log_suffix()
}

/// `i` is the index of the first path that cannot be archived.
pub open spec fn first_bad_path(paths: Seq<String>, i: int) -> bool {
    0 <= i < paths.len() && !archivable(paths[i]@) && forall|j: int|
        0 <= j < i ==> archivable(#[trigger] paths[j]@)
}

/// Every path can be archived.
pub open spec fn all_archivable(paths: Seq<String>) -> bool {
    forall|i: int| 0 <= i < paths.len() ==> archivable(#[trigger] paths[i]@)
}

/// One file to move at a rotation: `from` is renamed to `to`.
#[derive(Debug, Clone)]
pub struct Rename {
    /// The active file.
    pub from: String,
    /// Its archived name.
    pub to: String,
}

/// Why the scheduler cannot go on.
#[derive(Debug, Clone, Copy, PartialEq, Eq, Structural)]
pub enum RotationError {
    /// The path at this index has no four-character extension to replace.
    BadPath(usize),
    /// The next boundary lies after the last instant the library handles.
    ClockOutOfRange,
}

/// The renames of one rotation at boundary `at`, one per path, in order.
pub open spec fn renames_at(paths: Seq<String>, at: int, renames: Seq<Rename>) -> bool {
    renames.len() == paths.len() && forall|i: int|
        0 <= i < paths.len() ==> (#[trigger] renames[i]).from@ == paths[i]@ && renames[i].to@
            == archived_name(paths[i]@, hour_stamp_of(at))
}

/// The rotation scheduler's state: it waits from `current` until `next`,
/// then archives every path under the hour stamp of `next`.
#[derive(Debug)]
pub struct Rotation {
    /// The files archived at each boundary.
    pub paths: Vec<String>,
    /// The time between two boundaries.
    pub interval: ArchiveDurantion,
    /// When the current wait began.
    pub current: i64,
    /// The boundary at which the next rotation happens.
    pub next: i64,
}

/// The name of `path` with its extension removed.
fn stem(path: &String) -> (r: String)
    requires
        archivable(path@),
    ensures
        r@ == path@.subrange(0, path@.len() - 4),
{
    let s = path.as_str();
    let n = s.unicode_len();
    String::from_str(s.substring_char(0, n - 4))
}

/// The archived name of `path` under the hour stamp `stamp`.
pub fn archive_path(path: &String, stamp: &String) -> (r: String)
    requires
        archivable(path@),
    ensures
        r@ == archived_name(path@, stamp@),
{
    let mut r = stem(path);
    r.append(stamp.as_str());
    r.append(".log");
    proof {
        reveal_strlit(".log");
        assert(".log"@ =~= log_suffix());
    }
    r
}

impl Rotation {
    /// The state is consistent: `next` is the boundary after `current`, and
    /// every path can be archived.
    pub open spec fn wf(&self) -> bool {
        &&& in_range(self.current as int)
        &&& self.next == next_boundary_spec(self.current as int, self.interval)
        &&& all_archivable(self.paths@)
    }

    /// The scheduler for `file` started at `now`: none where archiving is off,
    /// an error naming the first path without an extension to replace.
    pub fn start(file: &LogFile, now: i64) -> (r: Result<Option<Rotation>, RotationError>)
        requires
            in_range(now as int),
        ensures
            !file.archive ==> r == Ok::<Option<Rotation>, RotationError>(None),
            file.archive ==> match r {
                Ok(None) => false,
                Ok(Some(s)) => {
                    &&& s.wf()
                    &&& all_archivable(file.paths@)
                    &&& s.paths@ == file.paths@
                    &&& s.interval == effective_interval(file.how_long)
                    &&& s.current == now
                },
                Err(RotationError::BadPath(i)) => first_bad_path(file.paths@, i as int),
                Err(RotationError::ClockOutOfRange) => false,
            },
    {
        if !file.archive {
            return Ok(None);
        }
        let mut i: usize = 0;
        while i < file.paths.len()
            invariant
                0 <= i <= file.paths@.len(),
                file.archive,
                forall|j: int| 0 <= j < i ==> archivable(#[trigger] file.paths@[j]@),
            decreases file.paths@.len() - i,
        {
            if file.paths[i].as_str().unicode_len() < 4 {
                return Err(RotationError::BadPath(i));
            }
            i = i + 1;
        }
        let interval = match file.how_long {
            Some(d) => d,
            None => ArchiveDurantion::ThreeHour,
        };
        let next = next_boundary(now, interval);
        Ok(Some(Rotation { paths: file.paths.clone(), interval, current: now, next }))
    }

    /// How long to sleep before the next rotation, in seconds.
    pub fn wait_secs(&self) -> (r: i64)
        requires
            self.wf(),
        ensures
            r == self.next - self.current,
            r > 0,
    {
        proof {
            lemma_next_boundary(self.current as int, self.interval);
        }
        self.next - self.current
    }

    /// The rotation at boundary `next`: the renames to issue, one per path, in
    /// order; then the scheduler moves on to the boundary after `next`.
    pub fn rotate(&mut self) -> (r: Result<Vec<Rename>, RotationError>)
        requires
            old(self).wf(),
        ensures
            final(self).wf(),
            final(self).paths@ == old(self).paths@,
            final(self).interval == old(self).interval,
            !in_range(old(self).next as int) ==> {
                &&& r == Err::<Vec<Rename>, RotationError>(RotationError::ClockOutOfRange)
                &&& final(self).current == old(self).current
                &&& final(self).next == old(self).next
            },
            in_range(old(self).next as int) ==> match r {
                Ok(v) => {
                    &&& renames_at(old(self).paths@, old(self).next as int, v@)
                    &&& final(self).current == old(self).next
                    &&& final(self).next == next_boundary_spec(old(self).next as int, old(self).interval)
                },
                Err(_) => false,
            },
    {
        proof {
            lemma_next_boundary(self.current as int, self.interval);
        }
        if self.next > LATEST_SECS {
            return Err(RotationError::ClockOutOfRange);
        }
        let stamp = hour_stamp(self.next);
        let mut renames: Vec<Rename> = Vec::new();
        let mut i: usize = 0;
        while i < self.paths.len()
            invariant
                0 <= i <= self.paths@.len(),
                all_archivable(self.paths@),
                stamp@ == hour_stamp_of(self.next as int),
                renames@.len() == i,
                forall|j: int|
                    0 <= j < i ==> (#[trigger] renames@[j]).from@ == self.paths@[j]@
                        && renames@[j].to@ == archived_name(self.paths@[j]@, stamp@),
            decreases self.paths@.len() - i,
        {
            let path = &self.paths[i];
            let to = archive_path(path, &stamp);
            renames.push(Rename { from: path.clone(), to });
            i = i + 1;
        }
        let next = next_boundary(self.next, self.interval);
        self.current = self.next;
        self.next = next;
        Ok(renames)
    }
}

/// Two consecutive rotations of one path, at a boundary `at` and at the
/// boundary after it, lie one interval apart and give names that share the
/// stem and the extension and differ only in the hour stamp: the two names are
/// equal exactly when the two stamps are.
pub proof fn lemma_consecutive_rotations(path: Seq<char>, at: int, interval: ArchiveDurantion)
    requires
        archivable(path),
        in_range(at),
        at % 3600 == 0,
    ensures
        ({
            let later = next_boundary_spec(at, interval);
            let stem = path.subrange(0, path.len() - 4);
            &&& later == at + interval_secs(interval)
            &&& archived_name(path, hour_stamp_of(at)) == stem + hour_stamp_of(at) + log_suffix()
            &&& archived_name(path, hour_stamp_of(later)) == stem + hour_stamp_of(later)
                + log_suffix()
            &&& (archived_name(path, hour_stamp_of(at)) == archived_name(
                path,
                hour_stamp_of(later),
            ) <==> hour_stamp_of(at) == hour_stamp_of(later))
        }),
{
    let later = next_boundary_spec(at, interval);
    let stem = path.subrange(0, path.len() - 4);
    let s1 = hour_stamp_of(at);
    let s2 = hour_stamp_of(later);
    let a = archived_name(path, s1);
    let b = archived_name(path, s2);
    if a == b {
        assert(a.len() == b.len());
        assert(s1.len() == s2.len());
        assert forall|k: int| 0 <= k < s1.len() implies s1[k] == s2[k] by {
            assert(a[stem.len() + k] == s1[k]);
            assert(b[stem.len() + k] == s2[k]);
        }
        assert(s1 =~= s2);
    }
}

} // verus!
