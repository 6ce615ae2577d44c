//! Device names and the set of the names that are open.
//!
//! A name is the byte string under which a node stands in the device
//! directory. The set keeps each name once.

use vstd::prelude::*;

verus! {

/// Whether a name begins with `video`, as the nodes of video devices do.
pub open spec fn is_video_name(name: Seq<u8>) -> bool {
    name.len() >= 5 && name.subrange(0, 5) == seq![0x76u8, 0x69u8, 0x64u8, 0x65u8, 0x6fu8]
}

/// The directory that holds the device nodes, `/dev/`.
pub open spec fn directory() -> Seq<u8> {
    seq![0x2fu8, 0x64u8, 0x65u8, 0x76u8, 0x2fu8]
}

/// The path of a node: its name behind the directory.
pub open spec fn device_path(name: Seq<u8>) -> Seq<u8> {
    directory() + name
}

/// Whether two byte strings are the same.
pub fn same_bytes(a: &[u8], b: &[u8]) -> (same: bool)
    ensures
        same == (a@ == b@),
{
    if a.len() != b.len() {
        return false;
    }
    let mut i: usize = 0;
    while i < a.len()
        invariant
            a.len() == b.len(),
            i <= a.len(),
            forall|j: int| 0 <= j < i ==> a@[j] == b@[j],
        decreases a.len() - i,
    {
        if a[i] != b[i] {
            return false;
        }
        i += 1;
    }
    assert(a@ =~= b@);
    true
}

/// A copy of a byte string.
pub fn copy_bytes(a: &[u8]) -> (copy: Vec<u8>)
    ensures
        copy@ == a@,
{
    let mut copy: Vec<u8> = Vec::new();
    let mut i: usize = 0;
    while i < a.len()
        invariant
            i <= a.len(),
            copy@ == a@.subrange(0, i as int),
        decreases a.len() - i,
    {
        copy.push(a[i]);
        assert(copy@ =~= a@.subrange(0, i + 1));
        i += 1;
    }
    assert(copy@ =~= a@);
    copy
}

/// Whether a name is that of a video device node.
pub fn video_name(name: &[u8]) -> (video: bool)
    ensures
        video == is_video_name(name@),
{
    if name.len() < 5 {
        return false;
    }
    let video = name[0] == 0x76 && name[1] == 0x69 && name[2] == 0x64 && name[3] == 0x65 && name[4]
        == 0x6f;
    proof {
        let head = name@.subrange(0, 5);
        let word = seq![0x76u8, 0x69u8, 0x64u8, 0x65u8, 0x6fu8];
        if video {
            assert(head =~= word);
        } else {
            assert(head[0] == name@[0] && head[1] == name@[1] && head[2] == name@[2] && head[3]
                == name@[3] && head[4] == name@[4]);
            assert(word[0] == 0x76 && word[1] == 0x69 && word[2] == 0x64 && word[3] == 0x65
                && word[4] == 0x6f);
        }
    }
    video
}

/// The directory to watch for change records and to list.
pub fn device_directory() -> (path: Vec<u8>)
    ensures
        path@ == directory(),
{
    let mut path: Vec<u8> = Vec::new();
    path.push(0x2f);
    path.push(0x64);
    path.push(0x65);
    path.push(0x76);
    path.push(0x2f);
    assert(path@ =~= directory());
    path
}

/// The path under which a node of this name is opened.
pub fn path_of(name: &[u8]) -> (path: Vec<u8>)
    ensures
        path@ == device_path(name@),
{
    let mut path: Vec<u8> = device_directory();
    let ghost head = path@;
    let mut i: usize = 0;
    while i < name.len()
        invariant
            i <= name.len(),
            path@ == head + name@.subrange(0, i as int),
        decreases name.len() - i,
    {
        path.push(name[i]);
        assert(path@ =~= head + name@.subrange(0, i + 1));
        i += 1;
    }
    assert(name@.subrange(0, name@.len() as int) =~= name@);
    path
}

/// The names of the devices that are open, each once.
pub struct WatchedSet {
    names: Vec<Vec<u8>>,
}

impl View for WatchedSet {
    type V = Set<Seq<u8>>;

    closed spec fn view(&self) -> Set<Seq<u8>> {
        Set::new(|name: Seq<u8>| exists|i: int| 0 <= i < self.names@.len() && self.names@[i]@ == name)
    }
}

impl WatchedSet {
    /// No name stands twice.
    pub closed spec fn wf(&self) -> bool {
        forall|i: int, j: int|
            0 <= i < j < self.names@.len() ==> self.names@[i]@ != self.names@[j]@
    }

    /// The set without a name.
    pub fn new() -> (set: WatchedSet)
        ensures
            set.wf(),
            set@ == Set::<Seq<u8>>::empty(),
    {
        let set = WatchedSet { names: Vec::new() };
        assert(set@ =~= Set::<Seq<u8>>::empty());
        set
    }

    fn position(&self, name: &[u8]) -> (at: usize)
        ensures
            at <= self.names@.len(),
            at < self.names@.len() ==> self.names@[at as int]@ == name@,
            forall|j: int| 0 <= j < at ==> self.names@[j]@ != name@,
            at < self.names@.len() <==> self@.contains(name@),
    {
        let mut i: usize = 0;
        while i < self.names.len()
            invariant
                i <= self.names@.len(),
                forall|j: int| 0 <= j < i ==> self.names@[j]@ != name@,
            decreases self.names@.len() - i,
        {
            if same_bytes(self.names[i].as_slice(), name) {
                return i;
            }
            i += 1;
        }
        i
    }

    /// Whether the name is in the set.
    pub fn contains(&self, name: &[u8]) -> (found: bool)
        ensures
            found == self@.contains(name@),
    {
        self.position(name) < self.names.len()
    }

    /// Puts a name into the set; says whether it was new.
    pub fn insert(&mut self, name: Vec<u8>) -> (fresh: bool)
        requires
            old(self).wf(),
        ensures
            final(self).wf(),
            final(self)@ == old(self)@.insert(name@),
            fresh == !old(self)@.contains(name@),
    {
        let at = self.position(name.as_slice());
        if at < self.names.len() {
            assert(self@ =~= self@.insert(name@));
            false
        } else {
            let ghost before = self.names@;
            self.names.push(name);
            assert forall|n: Seq<u8>| self@.contains(n) <==> old(self)@.insert(name@).contains(
                n,
            ) by {
                if self@.contains(n) {
                    let i = choose|i: int| 0 <= i < self.names@.len() && self.names@[i]@ == n;
                    if i < before.len() {
                        assert(before[i]@ == n);
                    }
                }
                if old(self)@.contains(n) {
                    let i = choose|i: int| 0 <= i < before.len() && before[i]@ == n;
                    assert(self.names@[i]@ == n);
                }
                if n == name@ {
                    assert(self.names@[before.len() as int]@ == n);
                }
            }
            assert(self@ =~= old(self)@.insert(name@));
            true
        }
    }

    /// Takes a name out of the set; says whether it was there.
    pub fn remove(&mut self, name: &[u8]) -> (found: bool)
        requires
            old(self).wf(),
        ensures
            final(self).wf(),
            final(self)@ == old(self)@.remove(name@),
            found == old(self)@.contains(name@),
    {
        let at = self.position(name);
        if at < self.names.len() {
            let ghost before = self.names@;
            self.names.remove(at);
            assert forall|n: Seq<u8>| self@.contains(n) <==> old(self)@.remove(name@).contains(
                n,
            ) by {
                if self@.contains(n) {
                    let i = choose|i: int| 0 <= i < self.names@.len() && self.names@[i]@ == n;
                    if i < at {
                        assert(before[i]@ == n);
                    } else {
                        assert(before[i + 1]@ == n);
                    }
                }
                if old(self)@.remove(name@).contains(n) {
                    let i = choose|i: int| 0 <= i < before.len() && before[i]@ == n;
                    if i < at {
                        assert(self.names@[i]@ == n);
                    } else {
                        assert(i > at);
                        assert(self.names@[i - 1]@ == n);
                    }
                }
            }
            assert(self@ =~= old(self)@.remove(name@));
            true
        } else {
            assert(self@ =~= self@.remove(name@));
            false
        }
    }

    /// Whether the set holds no name.
    pub fn is_empty(&self) -> (empty: bool)
        ensures
            empty == (self@ == Set::<Seq<u8>>::empty()),
    {
        let empty = self.names.len() == 0;
        proof {
            if empty {
                assert(self@ =~= Set::<Seq<u8>>::empty());
            } else {
                assert(self@.contains(self.names@[0]@));
            }
        }
        empty
    }
}

} // verus!
