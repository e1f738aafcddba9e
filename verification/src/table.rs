//! The fake-ownership table: what is pretended about each inode.
//!
//! The table lives in memory for the duration of one supervised run. Nothing in it
//! reaches the filesystem: the intended values are recorded here and overlaid onto
//! every `stat`/`statx` result that a traced process reads. Entries are keyed by
//! `(dev, ino)`.

use crate::bytes::{copy_bytes, same_bytes, strings};
use std::collections::HashMap;
use vstd::prelude::*;
use vstd::std_specs::hash::*;

verus! {

broadcast use group_hash_axioms;

/// The mathematical value of a set of extended attributes: their names in the order
/// in which they were first set, and the value of each.
#[verifier::ext_equal]
pub struct XattrsView {
    pub names: Seq<Seq<u8>>,
    pub values: Map<Seq<u8>, Seq<u8>>,
}

impl XattrsView {
    /// No attribute at all.
    pub open spec fn none() -> XattrsView {
        XattrsView { names: Seq::empty(), values: Map::empty() }
    }

    /// Every attribute that has a value is named exactly once, and no other name occurs.
    pub open spec fn wf(self) -> bool {
        &&& self.names.no_duplicates()
        &&& forall|name: Seq<u8>| self.names.contains(name) <==> self.values.contains_key(name)
    }

    /// The attributes after `name` has been given `value`.
    pub open spec fn set(self, name: Seq<u8>, value: Seq<u8>) -> XattrsView {
        XattrsView {
            names: if self.values.contains_key(name) {
                self.names
            } else {
                self.names.push(name)
            },
            values: self.values.insert(name, value),
        }
    }

    /// The attributes after `name` has been taken out.
    pub open spec fn without(self, name: Seq<u8>) -> XattrsView {
        XattrsView { names: self.names.remove_value(name), values: self.values.remove(name) }
    }
}

/// The faked extended attributes of one inode (such as `security.capability`), each
/// name with its value. No name occurs twice.
#[derive(Debug)]
pub struct Xattrs {
    entries: Vec<(Vec<u8>, Vec<u8>)>,
}

/// The value that the attribute `name` has among `entries`.
spec fn value_among(entries: Seq<(Vec<u8>, Vec<u8>)>, name: Seq<u8>) -> Seq<u8> {
    let i = choose|i: int| 0 <= i < entries.len() && #[trigger] entries[i].0@ == name;
    entries[i].1@
}

/// Whether an attribute `name` is among `entries`.
spec fn named_among(entries: Seq<(Vec<u8>, Vec<u8>)>, name: Seq<u8>) -> bool {
    exists|i: int| 0 <= i < entries.len() && #[trigger] entries[i].0@ == name
}

/// No name occurs twice among `entries`.
spec fn distinct_names(entries: Seq<(Vec<u8>, Vec<u8>)>) -> bool {
    forall|i: int, j: int|
        0 <= i < j < entries.len() ==> #[trigger] entries[i].0@ != #[trigger] entries[j].0@
}

/// Where no name occurs twice, the entry at a position is the one that its name finds.
proof fn lemma_found(entries: Seq<(Vec<u8>, Vec<u8>)>, i: int)
    requires
        distinct_names(entries),
        0 <= i < entries.len(),
    ensures
        named_among(entries, entries[i].0@),
        value_among(entries, entries[i].0@) == entries[i].1@,
{
    let name = entries[i].0@;
    let k = choose|k: int| 0 <= k < entries.len() && #[trigger] entries[k].0@ == name;
    assert(entries[i].0@ == name);
}

impl View for Xattrs {
    type V = XattrsView;

    closed spec fn view(&self) -> XattrsView {
        XattrsView {
            names: Seq::new(self.entries@.len(), |i: int| self.entries@[i].0@),
            values: Map::new(
                |name: Seq<u8>| named_among(self.entries@, name),
                |name: Seq<u8>| value_among(self.entries@, name),
            ),
        }
    }
}

impl Xattrs {
    #[verifier::type_invariant]
    spec fn names_distinct(self) -> bool {
        distinct_names(self.entries@)
    }

    /// No attributes.
    pub fn new() -> (x: Xattrs)
        ensures
            x@ == XattrsView::none(),
    {
        let x = Xattrs { entries: Vec::new() };
        assert(x@ =~= XattrsView::none());
        x
    }

    /// The position of an attribute.
    fn position(&self, name: &[u8]) -> (found: Option<usize>)
        ensures
            match found {
                Some(i) => i < self.entries@.len() && self.entries@[i as int].0@ == name@,
                None => forall|k: int|
                    0 <= k < self.entries@.len() ==> #[trigger] self.entries@[k].0@ != name@,
            },
    {
        let mut i: usize = 0;
        while i < self.entries.len()
            invariant
                i <= self.entries@.len(),
                forall|k: int| 0 <= k < i ==> #[trigger] self.entries@[k].0@ != name@,
            decreases self.entries@.len() - i,
        {
            if same_bytes(self.entries[i].0.as_slice(), name) {
                return Some(i);
            }
            i = i + 1;
        }
        None
    }

    /// The value of an attribute.
    pub fn get(&self, name: &[u8]) -> (value: Option<&Vec<u8>>)
        ensures
            match value {
                Some(v) => self@.values.contains_key(name@) && v@ == self@.values[name@],
                None => !self@.values.contains_key(name@),
            },
    {
        proof {
            use_type_invariant(self);
        }
        match self.position(name) {
            Some(i) => {
                assert(self.entries@[i as int].0@ == name@);
                Some(&self.entries[i].1)
            },
            None => None,
        }
    }

    /// Gives an attribute a value, in place of the one it had.
    pub fn insert(&mut self, name: Vec<u8>, value: Vec<u8>)
        ensures
            final(self)@ == old(self)@.set(name@, value@),
    {
        proof {
            use_type_invariant(&*self);
        }
        let ghost before = self.entries@;
        let found = self.position(name.as_slice());
        let mut entries: Vec<(Vec<u8>, Vec<u8>)> = Vec::new();
        std::mem::swap(&mut entries, &mut self.entries);
        match found {
            Some(i) => {
                entries.set(i, (name, value));
            },
            None => {
                entries.push((name, value));
            },
        }
        proof {
            let after = entries@;
            assert(distinct_names(after));
            let at = match found {
                Some(i) => i as int,
                None => before.len() as int,
            };
            lemma_found(after, at);
            assert forall|other: Seq<u8>| other != name@ implies (named_among(after, other)
                <==> named_among(before, other)) && (named_among(before, other) ==> value_among(
                after,
                other,
            ) == value_among(before, other)) by {
                if named_among(before, other) {
                    let k = choose|k: int| 0 <= k < before.len() && #[trigger] before[k].0@ == other;
                    assert(after[k] == before[k]);
                    lemma_found(before, k);
                    lemma_found(after, k);
                }
                if named_among(after, other) {
                    let k = choose|k: int| 0 <= k < after.len() && #[trigger] after[k].0@ == other;
                    assert(after[k] == before[k]);
                    lemma_found(before, k);
                }
            }
        }
        self.entries = entries;
        assert(self@.names =~= old(self)@.set(name@, value@).names);
        assert(self@.values =~= old(self)@.set(name@, value@).values);
    }

    /// Takes an attribute out; where there is none of that name, nothing changes.
    pub fn remove(&mut self, name: &[u8])
        ensures
            final(self)@ == old(self)@.without(name@),
    {
        proof {
            use_type_invariant(&*self);
        }
        let ghost before = self.entries@;
        let ghost names = self@.names;
        proof {
            names.index_of_first_ensures(name@);
        }
        match self.position(name) {
            Some(i) => {
                let mut entries: Vec<(Vec<u8>, Vec<u8>)> = Vec::new();
                std::mem::swap(&mut entries, &mut self.entries);
                entries.remove(i);
                proof {
                    let after = entries@;
                    assert(distinct_names(after));
                    assert(names[i as int] == name@);
                    assert(names.index_of_first(name@) == Some(i as int));
                    lemma_found(before, i as int);
                    assert forall|other: Seq<u8>| (named_among(after, other) <==> other != name@
                        && named_among(before, other)) && (named_among(after, other)
                        ==> value_among(after, other) == value_among(before, other)) by {
                        if other != name@ && named_among(before, other) {
                            let k = choose|k: int|
                                0 <= k < before.len() && #[trigger] before[k].0@ == other;
                            let moved = if k < i { k } else { k - 1 };
                            assert(after[moved] == before[k]);
                            lemma_found(before, k);
                            lemma_found(after, moved);
                        }
                        if named_among(after, other) {
                            let k = choose|k: int|
                                0 <= k < after.len() && #[trigger] after[k].0@ == other;
                            let origin = if k < i { k } else { k + 1 };
                            assert(after[k] == before[origin]);
                            assert(before[origin].0@ == other);
                            lemma_found(before, origin);
                            lemma_found(after, k);
                        }
                    }
                }
                self.entries = entries;
            },
            None => {
                assert(!names.contains(name@));
            },
        }
        assert(self@.names =~= old(self)@.without(name@).names);
        assert(self@.values =~= old(self)@.without(name@).values);
    }

    /// The names of the attributes, each once.
    pub fn names(&self) -> (names: Vec<Vec<u8>>)
        ensures
            strings(names@) == self@.names,
            self@.wf(),
    {
        proof {
            use_type_invariant(self);
            self.lemma_wf();
        }
        let mut names: Vec<Vec<u8>> = Vec::new();
        let mut i: usize = 0;
        while i < self.entries.len()
            invariant
                i <= self.entries@.len(),
                names@.len() == i,
                forall|k: int| 0 <= k < i ==> #[trigger] names@[k]@ == self.entries@[k].0@,
            decreases self.entries@.len() - i,
        {
            names.push(copy_bytes(self.entries[i].0.as_slice()));
            i = i + 1;
        }
        assert(strings(names@) =~= self@.names);
        names
    }

    proof fn lemma_wf(&self)
        requires
            distinct_names(self.entries@),
        ensures
            self@.wf(),
    {
        let names = self@.names;
        assert forall|name: Seq<u8>| names.contains(name) <==> self@.values.contains_key(name) by {
            if names.contains(name) {
                let i = choose|i: int| 0 <= i < names.len() && names[i] == name;
                assert(self.entries@[i].0@ == name);
            }
            if named_among(self.entries@, name) {
                let i = choose|i: int|
                    0 <= i < self.entries@.len() && #[trigger] self.entries@[i].0@ == name;
                assert(names[i] == name);
            }
        }
    }
}

impl Clone for Xattrs {
    fn clone(&self) -> (copy: Xattrs)
        ensures
            copy@ == self@,
    {
        proof {
            use_type_invariant(self);
        }
        let mut entries: Vec<(Vec<u8>, Vec<u8>)> = Vec::new();
        let mut i: usize = 0;
        while i < self.entries.len()
            invariant
                i <= self.entries@.len(),
                entries@.len() == i,
                forall|k: int|
                    0 <= k < i ==> #[trigger] entries@[k].0@ == self.entries@[k].0@
                        && entries@[k].1@ == self.entries@[k].1@,
            decreases self.entries@.len() - i,
        {
            entries.push(
                (
                    copy_bytes(self.entries[i].0.as_slice()),
                    copy_bytes(self.entries[i].1.as_slice()),
                ),
            );
            i = i + 1;
        }
        proof {
            let from = self.entries@;
            let to = entries@;
            assert(distinct_names(to));
            assert forall|name: Seq<u8>| (named_among(to, name) <==> named_among(from, name)) && (
            named_among(from, name) ==> value_among(to, name) == value_among(from, name)) by {
                if named_among(from, name) {
                    let k = choose|k: int| 0 <= k < from.len() && #[trigger] from[k].0@ == name;
                    assert(to[k].0@ == name);
                    lemma_found(from, k);
                    lemma_found(to, k);
                }
            }
        }
        let copy = Xattrs { entries };
        assert(copy@.names =~= self@.names);
        assert(copy@.values =~= self@.values);
        copy
    }
}

/// The mathematical value of a [`FakeNode`].
#[verifier::ext_equal]
pub struct FakeNodeView {
    pub uid: u32,
    pub gid: u32,
    pub mode: Option<u32>,
    pub rdev: Option<u64>,
    pub nlink: Option<u64>,
    pub xattrs: XattrsView,
}

impl FakeNodeView {
    /// What is reported of an inode of which nothing is recorded: it belongs to root,
    /// and everything else about it is real.
    pub open spec fn unknown() -> FakeNodeView {
        FakeNodeView {
            uid: 0,
            gid: 0,
            mode: None,
            rdev: None,
            nlink: None,
            xattrs: XattrsView::none(),
        }
    }
}

/// What is reported for one inode. A field left `None` falls through to the file's
/// real value, so an inode that was only `chown`ed keeps its real mode and rdev.
#[derive(Debug)]
pub struct FakeNode {
    pub uid: u32,
    pub gid: u32,
    /// The whole mode to report (type and permission bits).
    pub mode: Option<u32>,
    /// The device id to report for a device node.
    pub rdev: Option<u64>,
    /// The hard-link count to report.
    pub nlink: Option<u64>,
    /// The faked extended attributes.
    pub xattrs: Xattrs,
}

impl View for FakeNode {
    type V = FakeNodeView;

    open spec fn view(&self) -> FakeNodeView {
        FakeNodeView {
            uid: self.uid,
            gid: self.gid,
            mode: self.mode,
            rdev: self.rdev,
            nlink: self.nlink,
            xattrs: self.xattrs@,
        }
    }
}

impl Default for FakeNode {
    fn default() -> (node: FakeNode)
        ensures
            node@ == FakeNodeView::unknown(),
    {
        FakeNode { uid: 0, gid: 0, mode: None, rdev: None, nlink: None, xattrs: Xattrs::new() }
    }
}

impl Clone for FakeNode {
    fn clone(&self) -> (copy: FakeNode)
        ensures
            copy@ == self@,
    {
        FakeNode {
            uid: self.uid,
            gid: self.gid,
            mode: self.mode,
            rdev: self.rdev,
            nlink: self.nlink,
            xattrs: self.xattrs.clone(),
        }
    }
}

/// The mathematical value of an [`OwnershipTable`]: what is recorded, by `(dev, ino)`.
pub type TableView = Map<(u64, u64), FakeNodeView>;

/// What a table says of an inode, recorded or not.
pub open spec fn node_at(table: TableView, dev: u64, ino: u64) -> FakeNodeView {
    if table.contains_key((dev, ino)) {
        table[(dev, ino)]
    } else {
        FakeNodeView::unknown()
    }
}

/// The in-memory table from `(dev, ino)` to what is pretended of that inode.
pub struct OwnershipTable {
    map: HashMap<u128, FakeNode>,
}

/// One number for a pair of numbers: the key under which an inode is stored.
spec fn packed(key: (u64, u64)) -> u128 {
    (key.0 as u128) << 64 | key.1 as u128
}

/// No two inodes are stored under the same key.
proof fn lemma_packed_distinct(a: (u64, u64), b: (u64, u64))
    ensures
        packed(a) == packed(b) ==> a == b,
{
    let (a0, a1) = a;
    let (b0, b1) = b;
    assert((a0 as u128) << 64 | a1 as u128 == (b0 as u128) << 64 | b1 as u128 ==> a0 == b0 && a1
        == b1) by (bit_vector);
}

impl View for OwnershipTable {
    type V = TableView;

    closed spec fn view(&self) -> TableView {
        Map::new(
            |key: (u64, u64)| self.map@.contains_key(packed(key)),
            |key: (u64, u64)| self.map@[packed(key)]@,
        )
    }
}

impl Default for OwnershipTable {
    fn default() -> (table: OwnershipTable)
        ensures
            table@ == Map::<(u64, u64), FakeNodeView>::empty(),
    {
        let table = OwnershipTable { map: HashMap::new() };
        assert(table@ =~= Map::<(u64, u64), FakeNodeView>::empty());
        table
    }
}

impl OwnershipTable {
    /// The key under which an inode is stored.
    fn key(dev: u64, ino: u64) -> (key: u128)
        ensures
            key == packed((dev, ino)),
    {
        (dev as u128) << 64 | ino as u128
    }

    /// What is recorded of an inode.
    pub fn get(&self, dev: u64, ino: u64) -> (node: Option<&FakeNode>)
        ensures
            match node {
                Some(n) => self@.contains_key((dev, ino)) && n@ == self@[(dev, ino)],
                None => !self@.contains_key((dev, ino)),
            },
    {
        let key: u128 = Self::key(dev, ino);
        self.map.get(&key)
    }

    /// The record of an inode, for changing it. Where there is none yet, one that
    /// says that the inode belongs to root is made first.
    pub fn entry(&mut self, dev: u64, ino: u64) -> (node: &mut FakeNode)
        ensures
            node@ == node_at(old(self)@, dev, ino),
            final(self)@ == old(self)@.insert((dev, ino), final(node)@),
    {
        let key: u128 = Self::key(dev, ino);
        let ghost before = self.map@;
        let node = self.map.entry(key).or_insert(FakeNode::default());
        proof {
            let after = before.insert(key, *final(node));
            let seen = Map::new(
                |k: (u64, u64)| after.contains_key(packed(k)),
                |k: (u64, u64)| after[packed(k)]@,
            );
            assert forall|k: (u64, u64)| packed(k) == key implies k == (dev, ino) by {
                lemma_packed_distinct(k, (dev, ino));
            }
            assert(seen =~= old(self)@.insert((dev, ino), final(node)@));
        }
        node
    }

    /// Forgets an inode.
    pub fn remove(&mut self, dev: u64, ino: u64)
        ensures
            final(self)@ == old(self)@.remove((dev, ino)),
    {
        let key: u128 = Self::key(dev, ino);
        self.map.remove(&key);
        proof {
            assert forall|k: (u64, u64)| packed(k) == key implies k == (dev, ino) by {
                lemma_packed_distinct(k, (dev, ino));
            }
            assert(self@ =~= old(self)@.remove((dev, ino)));
        }
    }
}

} // verus!
